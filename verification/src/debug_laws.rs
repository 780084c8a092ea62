//! What debug forms show.

use datafusion::arrow::datatypes::Schema;
use vstd::prelude::*;

use crate::cache_plan::{
    AliasPlanView, CachePlanOutputView, CachePlanView, DecisionView, MssqlCacheCandidateSkipReason,
    SkipView, alias_plan_debug, cache_plan_debug, decimals, decision_debug, plan_output_debug,
    skip_debug, skip_reason_debug,
};
use crate::debug::{
    braced, dependency_debug, dependency_debugs, field_debug, field_debugs, kind_debug,
    lineage_debug, named, optional, optional_number, protocol_debug, quoted_texts, schema_debug,
    signed_decimal, table_debug, truth,
};
use crate::dry_run::{DryRunReportView, dry_run_debug};
use crate::engine::{SchemaFieldView, schema_fields};
use crate::handles::{LazyTableKind, LazyTableView, OutputTargetView, output_target_debug};
use crate::lineage::{DependencyView, LineageView};
use crate::options::{
    DryRunScanSummaryMode, MssqlWorkflowWriteOptions, MssqlWriteBackend, QueryOptions,
    SessionOptionsView, ValidationOptions, backend_debug, default_connection_debug,
    query_options_debug, scan_summary_debug, session_options_debug, validation_options_debug,
    workflow_options_debug,
};
use crate::registry::{DerivedView, ProtocolView, SourceView, derived_debug, source_debug};
use crate::scan_options::{
    IntraFileRepartitioning, ParquetReaderBackend, ScanOptionsView, optional_truth,
    parquet_backend_debug, repartitioning_debug, scan_options_debug, size_hint_debug,
};
use crate::session::{SessionView, derived_debugs, session_debug, source_debugs};
use crate::target::{TargetConfigView, connection_summary, quoted_text, target_debug};
use crate::text::{decimal, display_text, has_text, listed, separated, text_at};
use crate::text_laws::{items_are_separated_in_order, text_is_found_where_it_stands};

verus! {

/// A text that stands between two others is found in them.
pub proof fn stands_between(front: Seq<char>, needle: Seq<char>, back: Seq<char>)
    ensures
        has_text(front + needle + back, needle),
{
    text_is_found_where_it_stands(front + needle + back, needle);
}

/// What is found in a text is found in every text that the text is found in.
pub proof fn found_within_what_is_found(outer: Seq<char>, middle: Seq<char>, inner: Seq<char>)
    requires
        has_text(outer, middle),
        has_text(middle, inner),
    ensures
        has_text(outer, inner),
{
    let i = choose|i: int| #[trigger] text_at(outer, middle, i);
    let j = choose|j: int| #[trigger] text_at(middle, inner, j);
    assert forall|k: int| 0 <= k < inner.len() implies outer[i + j + k] == #[trigger] inner[k] by {
        assert(middle[j + k] == inner[k]);
        assert(outer[i + (j + k)] == middle[j + k]);
    }
    assert(text_at(outer, inner, i + j));
}

/// Every item of a list is found in the list's form.
pub proof fn items_are_found(items: Seq<Seq<char>>, i: int)
    requires
        0 <= i < items.len(),
    ensures
        has_text(separated(items), items[i]),
        has_text(listed(items), items[i]),
    decreases items.len(),
{
    let all = separated(items);
    if items.len() == 1 {
        stands_between(Seq::empty(), items[0], Seq::empty());
        assert(Seq::<char>::empty() + items[0] + Seq::<char>::empty() =~= items[0]);
    } else if i == items.len() - 1 {
        let front = separated(items.drop_last()) + ", "@;
        stands_between(front, items[i], Seq::empty());
        assert(front + items[i] + Seq::<char>::empty() =~= all);
    } else {
        let front = items.drop_last();
        items_are_found(front, i);
        stands_between(Seq::empty(), separated(front), ", "@ + items.last());
        assert(Seq::<char>::empty() + separated(front) + (", "@ + items.last()) =~= all);
        found_within_what_is_found(all, separated(front), items[i]);
    }
    stands_between("["@, all, "]"@);
    found_within_what_is_found(listed(items), all, items[i]);
}

/// A named form holds its value, and a braced form each of its fields.
pub proof fn fields_are_found(name: Seq<char>, fields: Seq<Seq<char>>, i: int)
    requires
        0 <= i < fields.len(),
    ensures
        has_text(braced(name, fields), fields[i]),
        has_text(braced(name, fields), name),
{
    let inner = separated(fields);
    items_are_found(fields, i);
    stands_between(name + " { "@, inner, " }"@);
    found_within_what_is_found(braced(name, fields), inner, fields[i]);
    stands_between(Seq::empty(), name, " { "@ + inner + " }"@);
    assert(Seq::<char>::empty() + name + (" { "@ + inner + " }"@) =~= braced(name, fields));
}

proof fn value_is_found(field: Seq<char>, value: Seq<char>)
    ensures
        has_text(named(field, value), value),
        has_text(named(field, value), field + ": "@ + value),
{
    stands_between(field + ": "@, value, Seq::empty());
    assert(field + ": "@ + value + Seq::<char>::empty() =~= named(field, value));
    stands_between(Seq::empty(), field + ": "@ + value, Seq::empty());
    assert(Seq::<char>::empty() + (field + ": "@ + value) + Seq::<char>::empty() =~= named(
        field,
        value,
    ));
}

proof fn field_shows(
    form: Seq<char>,
    name: Seq<char>,
    fields: Seq<Seq<char>>,
    i: int,
    field: Seq<char>,
    value: Seq<char>,
)
    requires
        form == braced(name, fields),
        0 <= i < fields.len(),
        fields[i] == named(field, value),
    ensures
        has_text(form, field + ": "@ + value),
{
    fields_are_found(name, fields, i);
    value_is_found(field, value);
    found_within_what_is_found(form, fields[i], field + ": "@ + value);
}

/// Truth values, optional values and numbers are shown as they are written.
pub proof fn plain_values_are_shown(value: Seq<char>, n: usize, i: int)
    ensures
        truth(true) == "true"@,
        truth(false) == "false"@,
        optional(Some(value)) == "Some("@ + value + ")"@,
        optional(None) == "None"@,
        optional_number(Some(n)) == "Some("@ + decimal(n as nat) + ")"@,
        optional_number(None) == "None"@,
        i >= 0 ==> signed_decimal(i) == decimal(i as nat),
        i < 0 ==> signed_decimal(i) == "-"@ + decimal((-i) as nat),
        kind_debug(LazyTableKind::DeltaSource) == "DeltaSource"@,
        kind_debug(LazyTableKind::DerivedSql) == "DerivedSql"@,
{
}

/// Settings are shown by the names of their choices and as plain values.
pub proof fn settings_are_shown_as_written(
    hint: Option<usize>,
    choice: bool,
    workflow: MssqlWorkflowWriteOptions,
)
    ensures
        repartitioning_debug(IntraFileRepartitioning::WhenBelowTarget) == "WhenBelowTarget"@,
        repartitioning_debug(IntraFileRepartitioning::Always) == "Always"@,
        backend_debug(MssqlWriteBackend::BulkLoad) == "BulkLoad"@,
        size_hint_debug(Some(hint)) == "Some("@ + optional_number(hint) + ")"@,
        size_hint_debug(None) == "None"@,
        optional_truth(Some(choice)) == "Some("@ + truth(choice) + ")"@,
        optional_truth(None) == "None"@,
        has_text(workflow_options_debug(workflow), decimal(workflow.parallel_outputs() as nat)),
{
    let shown = decimal(workflow.parallel_outputs() as nat);
    let fields = seq![named("max_parallel_outputs"@, shown)];
    fields_are_found("MssqlWorkflowWriteOptions"@, fields, 0);
    value_is_found("max_parallel_outputs"@, shown);
    found_within_what_is_found(workflow_options_debug(workflow), fields[0], shown);
}

/// Lists are shown item by item, in order.
pub proof fn lists_are_shown_in_order(
    sources: Seq<SourceView>,
    derived: Seq<DerivedView>,
    fields: Seq<SchemaFieldView>,
    dependencies: Seq<DependencyView>,
    texts: Seq<Seq<char>>,
)
    ensures
        source_debugs(sources).len() == sources.len(),
        forall|i: int|
            0 <= i < sources.len() ==> #[trigger] source_debugs(sources)[i] == source_debug(
                sources[i],
            ),
        derived_debugs(derived).len() == derived.len(),
        forall|i: int|
            0 <= i < derived.len() ==> #[trigger] derived_debugs(derived)[i] == derived_debug(
                derived[i],
            ),
        field_debugs(fields).len() == fields.len(),
        forall|i: int|
            0 <= i < fields.len() ==> #[trigger] field_debugs(fields)[i] == field_debug(fields[i]),
        dependency_debugs(dependencies).len() == dependencies.len(),
        forall|i: int|
            0 <= i < dependencies.len() ==> #[trigger] dependency_debugs(dependencies)[i]
                == dependency_debug(dependencies[i]),
        quoted_texts(texts).len() == texts.len(),
        forall|i: int|
            0 <= i < texts.len() ==> #[trigger] quoted_texts(texts)[i] == quoted_text(texts[i]),
{
}

/// A handle shows its id, its kind and its name.
pub proof fn handle_shows_its_parts(table: LazyTableView)
    ensures
        has_text(table_debug(table), "id"@ + ": "@ + ("LazyTableId("@ + decimal(table.id as nat)
            + ")"@)),
        has_text(table_debug(table), "kind"@ + ": "@ + kind_debug(table.kind)),
        has_text(table_debug(table), "name"@ + ": "@ + quoted_text(table.name)),
{
    let id = "LazyTableId("@ + decimal(table.id as nat) + ")"@;
    let fields = seq![
        named("id"@, id),
        named("kind"@, kind_debug(table.kind)),
        named("name"@, quoted_text(table.name)),
    ];
    field_shows(table_debug(table), "LazyTable"@, fields, 0, "id"@, id);
    field_shows(table_debug(table), "LazyTable"@, fields, 1, "kind"@, kind_debug(table.kind));
    field_shows(table_debug(table), "LazyTable"@, fields, 2, "name"@, quoted_text(table.name));
}

/// A column shows its name, its type and whether it can be null.
pub proof fn column_shows_its_parts(field: SchemaFieldView)
    ensures
        has_text(field_debug(field), "name"@ + ": "@ + quoted_text(field.name)),
        has_text(field_debug(field), "data_type"@ + ": "@ + field.type_text),
        has_text(field_debug(field), "nullable"@ + ": "@ + truth(field.nullable)),
{
    let fields = seq![
        named("name"@, quoted_text(field.name)),
        named("data_type"@, field.type_text),
        named("nullable"@, truth(field.nullable)),
    ];
    field_shows(field_debug(field), "Field"@, fields, 0, "name"@, quoted_text(field.name));
    field_shows(field_debug(field), "Field"@, fields, 1, "data_type"@, field.type_text);
    field_shows(field_debug(field), "Field"@, fields, 2, "nullable"@, truth(field.nullable));
}

/// A schema shows every column.
pub proof fn schema_shows_every_column(schema: Schema, i: int)
    requires
        0 <= i < schema_fields(schema).len(),
    ensures
        has_text(schema_debug(schema), field_debug(schema_fields(schema)[i])),
{
    let shown = field_debugs(schema_fields(schema));
    items_are_found(shown, i);
    let fields = seq![named("fields"@, listed(shown))];
    fields_are_found("Schema"@, fields, 0);
    value_is_found("fields"@, listed(shown));
    found_within_what_is_found(schema_debug(schema), fields[0], listed(shown));
    found_within_what_is_found(schema_debug(schema), listed(shown), shown[i]);
}

/// A protocol shows its source and both versions.
pub proof fn protocol_shows_its_parts(protocol: ProtocolView)
    ensures
        has_text(protocol_debug(protocol), "source_name"@ + ": "@ + quoted_text(
            protocol.source_name,
        )),
        has_text(protocol_debug(protocol), "min_reader_version"@ + ": "@ + signed_decimal(
            protocol.min_reader_version as int,
        )),
        has_text(protocol_debug(protocol), "min_writer_version"@ + ": "@ + signed_decimal(
            protocol.min_writer_version as int,
        )),
{
    let fields = seq![
        named("source_name"@, quoted_text(protocol.source_name)),
        named("min_reader_version"@, signed_decimal(protocol.min_reader_version as int)),
        named("min_writer_version"@, signed_decimal(protocol.min_writer_version as int)),
    ];
    let form = protocol_debug(protocol);
    let name = "DeltaProtocolReport"@;
    field_shows(form, name, fields, 0, "source_name"@, quoted_text(protocol.source_name));
    field_shows(
        form,
        name,
        fields,
        1,
        "min_reader_version"@,
        signed_decimal(protocol.min_reader_version as int),
    );
    field_shows(
        form,
        name,
        fields,
        2,
        "min_writer_version"@,
        signed_decimal(protocol.min_writer_version as int),
    );
}

/// A source shows its handle, where it lies, its version, its schema and its protocol.
pub proof fn source_shows_its_parts(source: SourceView)
    ensures
        has_text(source_debug(source), "table"@ + ": "@ + table_debug(source.table)),
        has_text(source_debug(source), "source_uri"@ + ": "@ + quoted_text(source.source_uri)),
        has_text(source_debug(source), "snapshot_version"@ + ": "@ + decimal(
            source.snapshot_version as nat,
        )),
        has_text(source_debug(source), "schema"@ + ": "@ + schema_debug(source.schema)),
        has_text(source_debug(source), "protocol"@ + ": "@ + protocol_debug(source.protocol)),
{
    let fields = seq![
        named("table"@, table_debug(source.table)),
        named("source_uri"@, quoted_text(source.source_uri)),
        named("snapshot_version"@, decimal(source.snapshot_version as nat)),
        named("schema"@, schema_debug(source.schema)),
        named("protocol"@, protocol_debug(source.protocol)),
    ];
    let form = source_debug(source);
    let name = "RegisteredSessionSource"@;
    field_shows(form, name, fields, 0, "table"@, table_debug(source.table));
    field_shows(form, name, fields, 1, "source_uri"@, quoted_text(source.source_uri));
    field_shows(
        form,
        name,
        fields,
        2,
        "snapshot_version"@,
        decimal(source.snapshot_version as nat),
    );
    field_shows(form, name, fields, 3, "schema"@, schema_debug(source.schema));
    field_shows(form, name, fields, 4, "protocol"@, protocol_debug(source.protocol));
}

/// An alias shows its handle, its schema and its lineage, and its text as left out.
pub proof fn alias_shows_its_parts(derived: DerivedView)
    ensures
        has_text(derived_debug(derived), "table"@ + ": "@ + table_debug(derived.table)),
        has_text(derived_debug(derived), "schema"@ + ": "@ + schema_debug(derived.schema)),
        has_text(derived_debug(derived), "sql_text"@ + ": "@ + quoted_text("<redacted>"@)),
        has_text(derived_debug(derived), "lineage"@ + ": "@ + lineage_debug(derived.lineage)),
{
    let fields = seq![
        named("table"@, table_debug(derived.table)),
        named("schema"@, schema_debug(derived.schema)),
        named("sql_text"@, quoted_text("<redacted>"@)),
        named("lineage"@, lineage_debug(derived.lineage)),
    ];
    let form = derived_debug(derived);
    let name = "RegisteredDerivedTable"@;
    field_shows(form, name, fields, 0, "table"@, table_debug(derived.table));
    field_shows(form, name, fields, 1, "schema"@, schema_debug(derived.schema));
    field_shows(form, name, fields, 2, "sql_text"@, quoted_text("<redacted>"@));
    field_shows(form, name, fields, 3, "lineage"@, lineage_debug(derived.lineage));
}

/// A dependency shows its kind, its id and its name.
pub proof fn dependency_shows_its_parts(id: u64, name: Seq<char>)
    ensures
        dependency_debug(DependencyView::DeltaSource { table_id: id, name }) == "DeltaSource"@
            + " { "@ + ("table_id"@ + ": "@ + decimal(id as nat) + ", "@ + ("name"@ + ": "@
            + quoted_text(name))) + " }"@,
        dependency_debug(DependencyView::RegisteredDerived { table_id: id, name })
            == "RegisteredDerived"@ + " { "@ + ("table_id"@ + ": "@ + decimal(id as nat) + ", "@ + (
        "name"@ + ": "@ + quoted_text(name))) + " }"@,
{
    let a = named("table_id"@, decimal(id as nat));
    let b = named("name"@, quoted_text(name));
    assert(seq![a, b] =~= seq![a] + seq![b]);
    items_are_separated_in_order(seq![a], seq![b]);
    assert(separated(seq![a]) == a);
    assert(separated(seq![b]) == b);
}

/// A known lineage shows every dependency, every external reference and every common table
/// expression; an unknown one shows why.
pub proof fn lineage_shows_its_parts(lineage: LineageView)
    ensures
        lineage is Complete ==> forall|i: int|
            0 <= i < lineage->dependencies.len() ==> has_text(
                lineage_debug(lineage),
                dependency_debug(#[trigger] lineage->dependencies[i]),
            ),
        lineage is Complete ==> forall|i: int|
            0 <= i < lineage->external_references.len() ==> has_text(
                lineage_debug(lineage),
                quoted_text(#[trigger] lineage->external_references[i]),
            ),
        lineage is Complete ==> forall|i: int|
            0 <= i < lineage->cte_names.len() ==> has_text(
                lineage_debug(lineage),
                quoted_text(#[trigger] lineage->cte_names[i]),
            ),
        lineage is Incomplete ==> has_text(lineage_debug(lineage), quoted_text(lineage->reason)),
{
    let form = lineage_debug(lineage);
    match lineage {
        LineageView::Complete { dependencies, external_references, cte_names } => {
            let shown = dependency_debugs(dependencies);
            let external = quoted_texts(external_references);
            let ctes = quoted_texts(cte_names);
            let fields = seq![
                named("dependencies"@, listed(shown)),
                named("external_references"@, listed(external)),
                named("cte_names"@, listed(ctes)),
            ];
            assert forall|i: int| 0 <= i < dependencies.len() implies has_text(
                form,
                dependency_debug(#[trigger] dependencies[i]),
            ) by {
                items_are_found(shown, i);
                fields_are_found("Complete"@, fields, 0);
                value_is_found("dependencies"@, listed(shown));
                found_within_what_is_found(form, fields[0], listed(shown));
                found_within_what_is_found(form, listed(shown), shown[i]);
            }
            assert forall|i: int| 0 <= i < external_references.len() implies has_text(
                form,
                quoted_text(#[trigger] external_references[i]),
            ) by {
                items_are_found(external, i);
                fields_are_found("Complete"@, fields, 1);
                value_is_found("external_references"@, listed(external));
                found_within_what_is_found(form, fields[1], listed(external));
                found_within_what_is_found(form, listed(external), external[i]);
            }
            assert forall|i: int| 0 <= i < cte_names.len() implies has_text(
                form,
                quoted_text(#[trigger] cte_names[i]),
            ) by {
                items_are_found(ctes, i);
                fields_are_found("Complete"@, fields, 2);
                value_is_found("cte_names"@, listed(ctes));
                found_within_what_is_found(form, fields[2], listed(ctes));
                found_within_what_is_found(form, listed(ctes), ctes[i]);
            }
        },
        LineageView::Incomplete { reason } => {
            let fields = seq![named("reason"@, quoted_text(reason))];
            fields_are_found("Incomplete"@, fields, 0);
            value_is_found("reason"@, quoted_text(reason));
            found_within_what_is_found(form, fields[0], quoted_text(reason));
        },
    }
}

/// A session shows its options, every source, every alias and its next id.
pub proof fn session_shows_its_parts(session: SessionView)
    ensures
        has_text(session_debug(session), session_options_debug(session.options)),
        forall|i: int|
            0 <= i < session.sources.len() ==> has_text(
                session_debug(session),
                source_debug(#[trigger] session.sources[i]),
            ),
        forall|i: int|
            0 <= i < session.derived.len() ==> has_text(
                session_debug(session),
                derived_debug(#[trigger] session.derived[i]),
            ),
        has_text(session_debug(session), ", next_table_id: "@ + decimal(
            session.next_table_id as nat,
        )),
{
    let form = session_debug(session);
    let head = "DeltaFunnelSession { options: "@;
    let options = session_options_debug(session.options);
    let sources = listed(source_debugs(session.sources));
    let derived = listed(derived_debugs(session.derived));
    let id = ", next_table_id: "@ + decimal(session.next_table_id as nat);
    let tail = ", .. }"@;
    stands_between(head, options, ", sources: "@ + sources + ", derived_tables: "@ + derived + id
        + tail);
    assert(head + options + (", sources: "@ + sources + ", derived_tables: "@ + derived + id + tail)
        =~= form);
    stands_between(head + options + ", sources: "@, sources, ", derived_tables: "@ + derived + id
        + tail);
    assert(head + options + ", sources: "@ + sources + (", derived_tables: "@ + derived + id + tail)
        =~= form);
    stands_between(
        head + options + ", sources: "@ + sources + ", derived_tables: "@,
        derived,
        id + tail,
    );
    assert(head + options + ", sources: "@ + sources + ", derived_tables: "@ + derived + (id + tail)
        =~= form);
    stands_between(
        head + options + ", sources: "@ + sources + ", derived_tables: "@ + derived,
        id,
        tail,
    );
    assert(head + options + ", sources: "@ + sources + ", derived_tables: "@ + derived + id + tail
        =~= form);
    assert forall|i: int| 0 <= i < session.sources.len() implies has_text(
        form,
        source_debug(#[trigger] session.sources[i]),
    ) by {
        items_are_found(source_debugs(session.sources), i);
        found_within_what_is_found(form, sources, source_debugs(session.sources)[i]);
    }
    assert forall|i: int| 0 <= i < session.derived.len() implies has_text(
        form,
        derived_debug(#[trigger] session.derived[i]),
    ) by {
        items_are_found(derived_debugs(session.derived), i);
        found_within_what_is_found(form, derived, derived_debugs(session.derived)[i]);
    }
}

/// A target shows its schema, its table, its load mode and the label of its connection.
pub proof fn target_shows_its_parts(config: TargetConfigView)
    ensures
        has_text(
            target_debug(config),
            quoted_text(config.table.schema) + ", table: "@ + quoted_text(config.table.table),
        ),
        has_text(target_debug(config), ", load_mode: "@ + config.load_mode.name_of()),
        config.connection matches Some(connection) ==> has_text(
            target_debug(config),
            ", connection: "@ + quoted_text(connection_summary(connection.display_label)),
        ),
        config.connection is None ==> has_text(target_debug(config), ", connection: "@ + "None"@),
{
    let form = target_debug(config);
    let head = "MssqlTargetConfig { schema: "@;
    let table = quoted_text(config.table.schema) + ", table: "@ + quoted_text(config.table.table);
    let mode = ", load_mode: "@ + config.load_mode.name_of();
    let shown = match config.connection {
        Some(connection) => quoted_text(connection_summary(connection.display_label)),
        None => "None"@,
    };
    let connection = ", connection: "@ + shown;
    let tail = " }"@;
    stands_between(head, table, mode + connection + tail);
    assert(head + table + (mode + connection + tail) =~= form);
    stands_between(head + table, mode, connection + tail);
    assert(head + table + mode + (connection + tail) =~= form);
    stands_between(head + table + mode, connection, tail);
    assert(head + table + mode + connection + tail =~= form);
}

/// An output target shows its name, its target and its run mode.
pub proof fn output_target_shows_its_parts(target: OutputTargetView)
    ensures
        has_text(output_target_debug(target), quoted_text(display_text(target.output_name))),
        has_text(output_target_debug(target), target_debug(target.target)),
        has_text(output_target_debug(target), ", run_mode: "@ + target.run_mode.name_of()),
{
    let form = output_target_debug(target);
    let head = "MssqlOutputTarget { output_name: "@;
    let name = quoted_text(display_text(target.output_name));
    let config = target_debug(target.target);
    let mode = ", run_mode: "@ + target.run_mode.name_of();
    let tail = " }"@;
    stands_between(head, name, ", target: "@ + config + mode + tail);
    assert(head + name + (", target: "@ + config + mode + tail) =~= form);
    stands_between(head + name + ", target: "@, config, mode + tail);
    assert(head + name + ", target: "@ + config + (mode + tail) =~= form);
    stands_between(head + name + ", target: "@ + config, mode, tail);
    assert(head + name + ", target: "@ + config + mode + tail =~= form);
}

/// The report of a dry run shows its output, its table, its load mode, the label of its
/// connection, the state of the identity and the hash where there is one.
pub proof fn dry_run_shows_its_parts(report: DryRunReportView)
    ensures
        has_text(dry_run_debug(report), quoted_text(report.planned.resolved_target.output_name)),
        has_text(
            dry_run_debug(report),
            ", table: "@ + quoted_text(report.planned.resolved_target.table.table),
        ),
        has_text(
            dry_run_debug(report),
            ", load_mode: "@ + report.planned.resolved_target.load_mode.name_of(),
        ),
        has_text(
            dry_run_debug(report),
            ", connection: "@ + quoted_text(
                connection_summary(report.planned.resolved_target.connection.display_label),
            ),
        ),
        has_text(dry_run_debug(report), ", sql_identity: "@ + report.sql_identity.state.name_of()),
        report.sql_identity.hash matches Some(hash) ==> has_text(
            dry_run_debug(report),
            ", sql_hash: "@ + quoted_text(hash),
        ),
        report.sql_identity.hash is None ==> has_text(
            dry_run_debug(report),
            ", sql_hash: "@ + "None"@,
        ),
{
    let form = dry_run_debug(report);
    let target = report.planned.resolved_target;
    let head = "MssqlDryRunOutputReport { output_name: "@;
    let name = quoted_text(target.output_name);
    let table = ", table: "@ + quoted_text(target.table.table);
    let mode = ", load_mode: "@ + target.load_mode.name_of();
    let connection = ", connection: "@ + quoted_text(
        connection_summary(target.connection.display_label),
    );
    let identity = ", sql_identity: "@ + report.sql_identity.state.name_of();
    let shown = match report.sql_identity.hash {
        Some(hash) => quoted_text(hash),
        None => "None"@,
    };
    let hash = ", sql_hash: "@ + shown;
    let tail = " }"@;
    stands_between(head, name, table + mode + connection + identity + hash + tail);
    assert(head + name + (table + mode + connection + identity + hash + tail) =~= form);
    stands_between(head + name, table, mode + connection + identity + hash + tail);
    assert(head + name + table + (mode + connection + identity + hash + tail) =~= form);
    stands_between(head + name + table, mode, connection + identity + hash + tail);
    assert(head + name + table + mode + (connection + identity + hash + tail) =~= form);
    stands_between(head + name + table + mode, connection, identity + hash + tail);
    assert(head + name + table + mode + connection + (identity + hash + tail) =~= form);
    stands_between(head + name + table + mode + connection, identity, hash + tail);
    assert(head + name + table + mode + connection + identity + (hash + tail) =~= form);
    stands_between(head + name + table + mode + connection + identity, hash, tail);
    assert(head + name + table + mode + connection + identity + hash + tail =~= form);
}

/// A planned output of a cache plan shows its place, its table and its name.
pub proof fn plan_output_shows_its_parts(output: CachePlanOutputView)
    ensures
        has_text(plan_output_debug(output), decimal(output.index as nat)),
        has_text(plan_output_debug(output), ", table_id: "@ + decimal(output.table_id as nat)),
        has_text(
            plan_output_debug(output),
            ", table_name: "@ + quoted_text(display_text(output.table_name)),
        ),
        has_text(
            plan_output_debug(output),
            ", output_name: "@ + quoted_text(display_text(output.output_name)),
        ),
{
    let form = plan_output_debug(output);
    let head = "MssqlOutputCachePlanOutput { index: "@;
    let index = decimal(output.index as nat);
    let id = ", table_id: "@ + decimal(output.table_id as nat);
    let table = ", table_name: "@ + quoted_text(display_text(output.table_name));
    let name = ", output_name: "@ + quoted_text(display_text(output.output_name));
    let tail = " }"@;
    stands_between(head, index, id + table + name + tail);
    assert(head + index + (id + table + name + tail) =~= form);
    stands_between(head + index, id, table + name + tail);
    assert(head + index + id + (table + name + tail) =~= form);
    stands_between(head + index + id, table, name + tail);
    assert(head + index + id + table + (name + tail) =~= form);
    stands_between(head + index + id + table, name, tail);
    assert(head + index + id + table + name + tail =~= form);
}

/// A cached alias shows its id, its name and all outputs that read it.
pub proof fn cached_alias_shows_its_parts(alias: AliasPlanView)
    ensures
        has_text(alias_plan_debug(alias), decimal(alias.table_id as nat)),
        has_text(alias_plan_debug(alias), ", alias: "@ + quoted_text(display_text(alias.alias))),
        has_text(
            alias_plan_debug(alias),
            ", output_indexes: "@ + listed(decimals(alias.output_indexes)),
        ),
        decimals(alias.output_indexes).len() == alias.output_indexes.len(),
        forall|i: int|
            0 <= i < alias.output_indexes.len() ==> #[trigger] decimals(alias.output_indexes)[i]
                == decimal(alias.output_indexes[i] as nat),
{
    let form = alias_plan_debug(alias);
    let head = "MssqlDerivedCacheAliasPlan { table_id: "@;
    let id = decimal(alias.table_id as nat);
    let name = ", alias: "@ + quoted_text(display_text(alias.alias));
    let indexes = ", output_indexes: "@ + listed(decimals(alias.output_indexes));
    let tail = " }"@;
    stands_between(head, id, name + indexes + tail);
    assert(head + id + (name + indexes + tail) =~= form);
    stands_between(head + id, name, indexes + tail);
    assert(head + id + name + (indexes + tail) =~= form);
    stands_between(head + id + name, indexes, tail);
    assert(head + id + name + indexes + tail =~= form);
}

/// A skipped alias shows its id, its name and why it was skipped.
pub proof fn skip_shows_its_parts(skip: SkipView)
    ensures
        has_text(skip_debug(skip), decimal(skip.table_id as nat)),
        has_text(skip_debug(skip), ", alias: "@ + quoted_text(display_text(skip.alias))),
        has_text(skip_debug(skip), ", reason: "@ + skip_reason_debug(skip.reason)),
{
    let form = skip_debug(skip);
    let head = "MssqlCacheCandidateSkip { table_id: "@;
    let id = decimal(skip.table_id as nat);
    let name = ", alias: "@ + quoted_text(display_text(skip.alias));
    let reason = ", reason: "@ + skip_reason_debug(skip.reason);
    let tail = " }"@;
    stands_between(head, id, name + reason + tail);
    assert(head + id + (name + reason + tail) =~= form);
    stands_between(head + id, name, reason + tail);
    assert(head + id + name + (reason + tail) =~= form);
    stands_between(head + id + name, reason, tail);
    assert(head + id + name + reason + tail =~= form);
}

/// The reason of a skip shows its number where it has one.
pub proof fn skip_reason_shows_its_number(count: usize, id: u64)
    ensures
        has_text(
            skip_reason_debug(MssqlCacheCandidateSkipReason::NotShared { output_count: count }),
            decimal(count as nat),
        ),
        has_text(
            skip_reason_debug(
                MssqlCacheCandidateSkipReason::CoveredByDeeperSharedAlias { selected_table_id: id },
            ),
            decimal(id as nat),
        ),
        skip_reason_debug(MssqlCacheCandidateSkipReason::MissingSqlText) == "MissingSqlText"@,
        skip_reason_debug(MssqlCacheCandidateSkipReason::IncompleteLineage)
            == "IncompleteLineage"@,
        skip_reason_debug(MssqlCacheCandidateSkipReason::AmbiguousDepth) == "AmbiguousDepth"@,
{
    stands_between("NotShared { output_count: "@, decimal(count as nat), " }"@);
    stands_between(
        "CoveredByDeeperSharedAlias { selected_table_id: "@,
        decimal(id as nat),
        " }"@,
    );
}

/// A cache plan shows every output, its decision and every skip; a decision to cache shows every
/// cached alias.
pub proof fn cache_plan_shows_its_parts(plan: CachePlanView)
    ensures
        forall|i: int|
            0 <= i < plan.selected_outputs.len() ==> has_text(
                cache_plan_debug(plan),
                plan_output_debug(#[trigger] plan.selected_outputs[i]),
            ),
        has_text(cache_plan_debug(plan), decision_debug(plan.decision)),
        forall|i: int|
            0 <= i < plan.skipped_candidates.len() ==> has_text(
                cache_plan_debug(plan),
                skip_debug(#[trigger] plan.skipped_candidates[i]),
            ),
        plan.decision matches DecisionView::CacheAliases(aliases) ==> forall|i: int|
            0 <= i < aliases.len() ==> has_text(
                decision_debug(plan.decision),
                alias_plan_debug(#[trigger] aliases[i]),
            ),
        plan.decision matches DecisionView::NoCache { reason } ==> has_text(
            decision_debug(plan.decision),
            reason.name_of(),
        ),
{
    let form = cache_plan_debug(plan);
    let outputs = Seq::new(
        plan.selected_outputs.len(),
        |i: int| plan_output_debug(plan.selected_outputs[i]),
    );
    let skips = Seq::new(
        plan.skipped_candidates.len(),
        |i: int| skip_debug(plan.skipped_candidates[i]),
    );
    let head = "MssqlOutputCachePlan { selected_outputs: "@;
    let decision = decision_debug(plan.decision);
    let tail = " }"@;
    stands_between(
        head,
        listed(outputs),
        ", decision: "@ + decision + ", skipped_candidates: "@ + listed(skips) + tail,
    );
    assert(head + listed(outputs) + (", decision: "@ + decision + ", skipped_candidates: "@
        + listed(skips) + tail) =~= form);
    stands_between(
        head + listed(outputs) + ", decision: "@,
        decision,
        ", skipped_candidates: "@ + listed(skips) + tail,
    );
    assert(head + listed(outputs) + ", decision: "@ + decision + (", skipped_candidates: "@
        + listed(skips) + tail) =~= form);
    stands_between(
        head + listed(outputs) + ", decision: "@ + decision + ", skipped_candidates: "@,
        listed(skips),
        tail,
    );
    assert(head + listed(outputs) + ", decision: "@ + decision + ", skipped_candidates: "@ + listed(
        skips,
    ) + tail =~= form);
    assert forall|i: int| 0 <= i < plan.selected_outputs.len() implies has_text(
        form,
        plan_output_debug(#[trigger] plan.selected_outputs[i]),
    ) by {
        items_are_found(outputs, i);
        found_within_what_is_found(form, listed(outputs), outputs[i]);
    }
    assert forall|i: int| 0 <= i < plan.skipped_candidates.len() implies has_text(
        form,
        skip_debug(#[trigger] plan.skipped_candidates[i]),
    ) by {
        items_are_found(skips, i);
        found_within_what_is_found(form, listed(skips), skips[i]);
    }
    match plan.decision {
        DecisionView::CacheAliases(aliases) => {
            let shown = Seq::new(aliases.len(), |i: int| alias_plan_debug(aliases[i]));
            stands_between("CacheAliases("@, listed(shown), ")"@);
            assert forall|i: int| 0 <= i < aliases.len() implies has_text(
                decision,
                alias_plan_debug(#[trigger] aliases[i]),
            ) by {
                items_are_found(shown, i);
                found_within_what_is_found(decision, listed(shown), shown[i]);
            }
        },
        DecisionView::NoCache { reason } => {
            stands_between("NoCache { reason: "@, reason.name_of(), " }"@);
        },
    }
}

/// Query options show the number of partitions and the size of batches.
pub proof fn query_options_show_their_parts(options: QueryOptions)
    ensures
        has_text(
            query_options_debug(options),
            "target_partitions"@ + ": "@ + optional_number(options.target_partitions),
        ),
        has_text(
            query_options_debug(options),
            "output_batch_size"@ + ": "@ + optional_number(options.output_batch_size),
        ),
{
    let form = query_options_debug(options);
    let name = "QueryOptions"@;
    let partitions = optional_number(options.target_partitions);
    let size = optional_number(options.output_batch_size);
    let fields = seq![
        named("target_partitions"@, partitions),
        named("output_batch_size"@, size),
    ];
    field_shows(form, name, fields, 0, "target_partitions"@, partitions);
    field_shows(form, name, fields, 1, "output_batch_size"@, size);
}

/// Validation options show whether planning must succeed and how scans are summed up.
pub proof fn validation_options_show_their_parts(options: ValidationOptions)
    ensures
        has_text(
            validation_options_debug(options),
            "require_successful_planning"@ + ": "@ + truth(options.requires_planning()),
        ),
        has_text(
            validation_options_debug(options),
            "dry_run_scan_summary_mode"@ + ": "@ + scan_summary_debug(options.scan_summary()),
        ),
        scan_summary_debug(DryRunScanSummaryMode::MetadataOnly) == "MetadataOnly"@,
        scan_summary_debug(DryRunScanSummaryMode::ExhaustScanMetadata) == "ExhaustScanMetadata"@,
{
    let form = validation_options_debug(options);
    let name = "ValidationOptions"@;
    let planning = truth(options.requires_planning());
    let summary = scan_summary_debug(options.scan_summary());
    let fields = seq![
        named("require_successful_planning"@, planning),
        named("dry_run_scan_summary_mode"@, summary),
    ];
    field_shows(form, name, fields, 0, "require_successful_planning"@, planning);
    field_shows(form, name, fields, 1, "dry_run_scan_summary_mode"@, summary);
}

/// Scan options show every one of their settings.
pub proof fn scan_options_show_their_parts(options: ScanOptionsView)
    ensures
        ({
            let form = scan_options_debug(options);
            &&& has_text(
                form,
                "parquet_backend"@ + ": "@ + parquet_backend_debug(options.parquet_backend),
            )
            &&& has_text(
                form,
                "max_concurrent_file_reads_per_scan"@ + ": "@ + optional_number(
                    options.max_concurrent_file_reads_per_scan,
                ),
            )
            &&& has_text(
                form,
                "max_concurrent_file_reads_per_partition"@ + ": "@ + optional_number(
                    options.max_concurrent_file_reads_per_partition,
                ),
            )
            &&& has_text(
                form,
                "output_buffer_batches_per_partition"@ + ": "@ + optional_number(
                    options.output_buffer_batches_per_partition,
                ),
            )
            &&& has_text(
                form,
                "prefetch_files_per_partition"@ + ": "@ + optional_number(
                    options.prefetch_files_per_partition,
                ),
            )
            &&& has_text(
                form,
                "parquet_metadata_size_hint_bytes"@ + ": "@ + size_hint_debug(
                    options.parquet_metadata_size_hint_bytes,
                ),
            )
            &&& has_text(
                form,
                "parquet_full_file_read_threshold_bytes"@ + ": "@ + optional_number(
                    options.parquet_full_file_read_threshold_bytes,
                ),
            )
            &&& has_text(
                form,
                "experimental_intra_page_reads"@ + ": "@ + optional_truth(
                    options.experimental_intra_page_reads,
                ),
            )
        }),
        parquet_backend_debug(ParquetReaderBackend::DeltaKernel) == "DeltaKernel"@,
        parquet_backend_debug(ParquetReaderBackend::Direct) == "Direct"@,
{
    let form = scan_options_debug(options);
    let name = "DeltaScanExecutionOptions"@;
    let backend = parquet_backend_debug(options.parquet_backend);
    let per_scan = optional_number(options.max_concurrent_file_reads_per_scan);
    let per_partition = optional_number(options.max_concurrent_file_reads_per_partition);
    let buffer = optional_number(options.output_buffer_batches_per_partition);
    let prefetch = optional_number(options.prefetch_files_per_partition);
    let hint = size_hint_debug(options.parquet_metadata_size_hint_bytes);
    let threshold = optional_number(options.parquet_full_file_read_threshold_bytes);
    let intra = optional_truth(options.experimental_intra_page_reads);
    let fields = seq![
        named("parquet_backend"@, backend),
        named("max_concurrent_file_reads_per_scan"@, per_scan),
        named("max_concurrent_file_reads_per_partition"@, per_partition),
        named("output_buffer_batches_per_partition"@, buffer),
        named("prefetch_files_per_partition"@, prefetch),
        named("parquet_metadata_size_hint_bytes"@, hint),
        named("parquet_full_file_read_threshold_bytes"@, threshold),
        named("experimental_intra_page_reads"@, intra),
    ];
    field_shows(form, name, fields, 0, "parquet_backend"@, backend);
    field_shows(form, name, fields, 1, "max_concurrent_file_reads_per_scan"@, per_scan);
    field_shows(form, name, fields, 2, "max_concurrent_file_reads_per_partition"@, per_partition);
    field_shows(form, name, fields, 3, "output_buffer_batches_per_partition"@, buffer);
    field_shows(form, name, fields, 4, "prefetch_files_per_partition"@, prefetch);
    field_shows(form, name, fields, 5, "parquet_metadata_size_hint_bytes"@, hint);
    field_shows(form, name, fields, 6, "parquet_full_file_read_threshold_bytes"@, threshold);
    field_shows(form, name, fields, 7, "experimental_intra_page_reads"@, intra);
}

/// Session options show every one of their parts, and of the default connection its label.
pub proof fn session_options_show_their_parts(options: SessionOptionsView)
    ensures
        ({
            let form = session_options_debug(options);
            &&& has_text(
                form,
                "query_options"@ + ": "@ + query_options_debug(options.query_options),
            )
            &&& has_text(
                form,
                "provider_scan_options"@ + ": "@ + scan_options_debug(
                    options.provider_scan_options,
                ),
            )
            &&& has_text(
                form,
                "provider_file_repartitioning"@ + ": "@ + repartitioning_debug(
                    options.provider_file_repartitioning,
                ),
            )
            &&& has_text(
                form,
                "provider_use_view_types"@ + ": "@ + truth(options.provider_use_view_types),
            )
            &&& has_text(
                form,
                "mssql_write_backend"@ + ": "@ + backend_debug(options.mssql_write_backend),
            )
            &&& has_text(
                form,
                "mssql_workflow_options"@ + ": "@ + workflow_options_debug(
                    options.mssql_workflow_options,
                ),
            )
            &&& has_text(
                form,
                "validation_options"@ + ": "@ + validation_options_debug(
                    options.validation_options,
                ),
            )
            &&& has_text(
                form,
                "default_mssql_connection"@ + ": "@ + default_connection_debug(
                    options.default_mssql_connection,
                ),
            )
        }),
        default_connection_debug(None) == "None"@,
        options.default_mssql_connection matches Some(connection) ==> default_connection_debug(
            Some(connection),
        ) == "Some("@ + quoted_text(connection_summary(connection.display_label)) + ")"@,
{
    let form = session_options_debug(options);
    let name = "SessionOptions"@;
    let query = query_options_debug(options.query_options);
    let scan = scan_options_debug(options.provider_scan_options);
    let repartitioning = repartitioning_debug(options.provider_file_repartitioning);
    let view_types = truth(options.provider_use_view_types);
    let backend = backend_debug(options.mssql_write_backend);
    let workflow = workflow_options_debug(options.mssql_workflow_options);
    let validation = validation_options_debug(options.validation_options);
    let connection = default_connection_debug(options.default_mssql_connection);
    let fields = seq![
        named("query_options"@, query),
        named("provider_scan_options"@, scan),
        named("provider_file_repartitioning"@, repartitioning),
        named("provider_use_view_types"@, view_types),
        named("mssql_schema_options"@, "MssqlSchemaPlanOptions"@),
        named("mssql_write_backend"@, backend),
        named("mssql_workflow_options"@, workflow),
        named("validation_options"@, validation),
        named("default_mssql_connection"@, connection),
    ];
    field_shows(form, name, fields, 0, "query_options"@, query);
    field_shows(form, name, fields, 1, "provider_scan_options"@, scan);
    field_shows(form, name, fields, 2, "provider_file_repartitioning"@, repartitioning);
    field_shows(form, name, fields, 3, "provider_use_view_types"@, view_types);
    field_shows(form, name, fields, 5, "mssql_write_backend"@, backend);
    field_shows(form, name, fields, 6, "mssql_workflow_options"@, workflow);
    field_shows(form, name, fields, 7, "validation_options"@, validation);
    field_shows(form, name, fields, 8, "default_mssql_connection"@, connection);
}

} // verus!
