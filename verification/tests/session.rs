use std::future::Future;
use std::sync::Arc;

use datafusion::arrow::array::{Int64Array, RecordBatch, StringArray};
use datafusion::arrow::datatypes::{DataType, Field, Schema};
use datafusion::datasource::MemTable;
use delta_funnel::errors::{DeltaFunnelError, SqlTablePhase};
use delta_funnel::handles::{LazyTable, LazyTableKind};
use delta_funnel::lineage::{DerivedTableDependency, DerivedTableLineage};
use delta_funnel::options::{QueryOptions, SessionOptions};
use delta_funnel::registry::{DeltaProtocolReport, RegisteredDeltaSource, RegisteredDerivedTable};
use delta_funnel::report::{FileCount, ReportReasonCode};
use delta_funnel::session::{
    DeltaFunnelSession, LazyTableRead, classify_sql_error_phase, pending_read,
    read_only_sql_options, registered_read,
};
use delta_funnel::source_usage::SourceUsageStatus;

type TestResult = Result<(), Box<dyn std::error::Error>>;

fn block_on<F: Future>(future: F) -> F::Output {
    match tokio::runtime::Builder::new_current_thread().build() {
        Ok(runtime) => runtime.block_on(future),
        Err(error) => panic!("no runtime: {error}"),
    }
}

fn failure(error: DeltaFunnelError) -> String {
    error.display_text()
}

fn orders_schema() -> Arc<Schema> {
    Arc::new(Schema::new(vec![
        Field::new("id", DataType::Int64, true),
        Field::new("customer_name", DataType::Utf8, true),
    ]))
}

fn loaded_source(name: &str) -> RegisteredDeltaSource {
    RegisteredDeltaSource {
        name: name.to_owned(),
        table_uri: format!("file:///tables/{name}"),
        snapshot_version: 1,
        schema: orders_schema(),
        protocol: DeltaProtocolReport {
            source_name: name.to_owned(),
            min_reader_version: 1,
            min_writer_version: 2,
        },
    }
}

fn add_source(
    session: &mut DeltaFunnelSession,
    name: &str,
) -> Result<LazyTable, Box<dyn std::error::Error>> {
    let batch = RecordBatch::try_new(
        orders_schema(),
        vec![
            Arc::new(Int64Array::from(vec![1, 2])),
            Arc::new(StringArray::from(vec!["alice", "bob"])),
        ],
    )?;
    let provider = MemTable::try_new(orders_schema(), vec![vec![batch]])?;
    session.context().register_table(name, Arc::new(provider))?;
    Ok(session
        .delta_lake(name, Ok(vec![loaded_source(name)]))
        .map_err(failure)?)
}

fn table_from_sql(
    session: &mut DeltaFunnelSession,
    sql: &str,
) -> Result<LazyTable, DeltaFunnelError> {
    let planned = match session.prepare_table_sql(sql) {
        Ok(text) => block_on(
            session
                .context()
                .sql_with_options(&text, read_only_sql_options()),
        )
        .map_err(|error| error.to_string()),
        Err(_) => Err(String::new()),
    };
    session.table_from_sql(sql, planned)
}

#[test]
fn delta_lake_registers_source_and_returns_lazy_table() -> TestResult {
    let mut session = DeltaFunnelSession::new(SessionOptions::default()).map_err(failure)?;

    let lazy = add_source(&mut session, "orders")?;

    assert_eq!(lazy.id(), 0);
    assert_eq!(lazy.kind(), LazyTableKind::DeltaSource);
    assert_eq!(lazy.name(), "orders");
    assert_eq!(session.next_table_id(), 1);
    assert_eq!(session.sources().len(), 1);
    let registered = session
        .registered_source("ORDERS")
        .ok_or("expected registered source")?;
    assert_eq!(registered.table(), &lazy);
    assert_eq!(registered.name(), "orders");
    assert!(registered.source_uri().starts_with("file://"));
    assert_eq!(registered.snapshot_version(), 1);
    assert_eq!(registered.protocol().source_name, "orders");
    assert_eq!(registered.schema().fields().len(), 2);
    let source_reports = session.source_reports();
    assert_eq!(source_reports.len(), 1);
    let report = &source_reports[0];
    assert_eq!(report.source_name(), "orders");
    assert_eq!(report.source_uri(), registered.source_uri());
    assert_eq!(report.snapshot_version(), 1);
    assert_eq!(report.protocol().source_name, "orders");
    assert_eq!(report.scheduling().query_target_partitions(), None);
    assert_eq!(report.file_count(), FileCount::unavailable());
    assert_eq!(
        report.file_count_reason(),
        Some(ReportReasonCode::CostAvoidance)
    );
    assert!(!report.scan_metadata_exhausted());
    assert_eq!(report.usage_status(), SourceUsageStatus::Unknown);
    assert!(report.used_by_output_names().is_empty());
    assert!(report.provider_read_stats().is_none());
    assert_eq!(
        report.provider_stats_reason(),
        Some(ReportReasonCode::NotExecuted)
    );
    Ok(())
}

#[test]
fn delta_lake_registers_multiple_distinct_sources() -> TestResult {
    let mut session = DeltaFunnelSession::new(SessionOptions::default()).map_err(failure)?;

    let orders = add_source(&mut session, "orders")?;
    let customers = add_source(&mut session, "customers")?;

    assert_eq!(orders.id(), 0);
    assert_eq!(customers.id(), 1);
    assert_eq!(session.sources().len(), 2);
    assert!(session.registered_source("orders").is_some());
    assert!(session.registered_source("customers").is_some());
    Ok(())
}

#[test]
fn duplicate_source_alias_fails_before_loading_second_source() -> TestResult {
    let mut session = DeltaFunnelSession::new(SessionOptions::default()).map_err(failure)?;
    add_source(&mut session, "orders")?;

    let error = session.delta_lake("ORDERS", Ok(vec![loaded_source("ORDERS")]));

    assert!(matches!(
        error,
        Err(DeltaFunnelError::DuplicateSourceName { name }) if name == "ORDERS"
    ));
    assert_eq!(session.sources().len(), 1);
    assert_eq!(session.next_table_id(), 1);
    Ok(())
}

#[test]
fn invalid_source_alias_fails_before_registration() -> TestResult {
    let mut session = DeltaFunnelSession::new(SessionOptions::default()).map_err(failure)?;

    let error = session.delta_lake("select", Ok(vec![loaded_source("select")]));

    assert!(matches!(
        error,
        Err(DeltaFunnelError::InvalidSourceName { name, .. }) if name == "select"
    ));
    assert!(session.sources().is_empty());
    assert_eq!(session.next_table_id(), 0);
    Ok(())
}

#[test]
fn protocol_preflight_failure_does_not_register_source() -> TestResult {
    let mut session = DeltaFunnelSession::new(SessionOptions::default()).map_err(failure)?;

    let error = session.delta_lake(
        "unsupported",
        Err(DeltaFunnelError::DeltaProtocolCompatibility {
            name: "unsupported".to_owned(),
            message: "unsupported Delta minReaderVersion 99".to_owned(),
        }),
    );

    let display = error.as_ref().err().ok_or("expected error")?.display_text();
    assert!(display.contains("unsupported"));
    assert!(display.contains("unsupported Delta minReaderVersion"));
    assert!(matches!(
        error,
        Err(DeltaFunnelError::DeltaProtocolCompatibility { .. })
    ));
    assert!(session.sources().is_empty());
    assert_eq!(session.next_table_id(), 0);
    Ok(())
}

#[test]
fn protocol_preflight_failure_does_not_leak_datafusion_alias() -> TestResult {
    let mut session = DeltaFunnelSession::new(SessionOptions::default()).map_err(failure)?;

    let error = session.delta_lake(
        "unsupported",
        Err(DeltaFunnelError::DeltaProtocolCompatibility {
            name: "unsupported".to_owned(),
            message: "unsupported Delta minReaderVersion 99".to_owned(),
        }),
    );

    assert!(matches!(
        error,
        Err(DeltaFunnelError::DeltaProtocolCompatibility { .. })
    ));
    assert!(block_on(session.context().table("unsupported")).is_err());
    assert!(session.sources().is_empty());
    assert_eq!(session.next_table_id(), 0);
    Ok(())
}

#[test]
fn loading_that_gives_no_source_is_an_error() -> TestResult {
    let mut session = DeltaFunnelSession::new(SessionOptions::default()).map_err(failure)?;

    let error = session.delta_lake("orders", Ok(vec![]));

    assert!(matches!(
        error,
        Err(DeltaFunnelError::Config { message })
            if message == "Delta source registration returned no registered source"
    ));
    assert_eq!(session.next_table_id(), 0);
    let error = session.delta_lake(
        "orders",
        Err(DeltaFunnelError::DeltaSourceLoad {
            name: "orders".to_owned(),
            message: "gone".to_owned(),
        }),
    );
    assert_eq!(
        error.err().map(failure),
        Some("Delta source `orders` failed: gone".to_owned())
    );
    Ok(())
}

#[test]
fn registered_source_sql_analysis_does_not_read_data_files_for_rows() -> TestResult {
    let mut session = DeltaFunnelSession::new(SessionOptions::default()).map_err(failure)?;
    add_source(&mut session, "orders")?;

    let dataframe = block_on(session.context().sql("select id, customer_name from orders"))?;
    let schema = dataframe.schema();

    assert_eq!(schema.fields().len(), 2);
    assert_eq!(schema.field(0).name(), "id");
    assert_eq!(schema.field(1).name(), "customer_name");
    assert_eq!(session.sources().len(), 1);
    Ok(())
}

#[test]
fn table_from_sql_builds_lazy_derived_table_without_row_execution() -> TestResult {
    let mut session = DeltaFunnelSession::new(SessionOptions::default()).map_err(failure)?;
    add_source(&mut session, "orders")?;

    let derived = table_from_sql(&mut session, "select id, customer_name from orders")
        .map_err(failure)?;

    assert_eq!(derived.id(), 1);
    assert_eq!(derived.kind(), LazyTableKind::DerivedSql);
    assert_eq!(derived.name(), "table_1");
    assert_eq!(session.next_table_id(), 2);
    assert!(session.derived_tables().is_empty());
    Ok(())
}

#[test]
fn table_from_sql_retains_trimmed_pending_sql_text() -> TestResult {
    let mut session = DeltaFunnelSession::new(SessionOptions::default()).map_err(failure)?;
    add_source(&mut session, "orders")?;

    let derived = table_from_sql(&mut session, " \n\t select id from orders \t ")
        .map_err(failure)?;

    assert_eq!(
        session.sql_text_for_derived_table(&derived).map_err(failure)?,
        "select id from orders"
    );
    assert!(session.derived_tables().is_empty());
    Ok(())
}

#[test]
fn registered_derived_alias_can_be_referenced_by_later_sql() -> TestResult {
    let mut session = DeltaFunnelSession::new(SessionOptions::default()).map_err(failure)?;
    add_source(&mut session, "orders")?;
    let derived = table_from_sql(&mut session, "select id, customer_name from orders")
        .map_err(failure)?;

    let alias = session
        .register_alias("recent_orders", &derived)
        .map_err(failure)?;
    let second = table_from_sql(&mut session, "select id from recent_orders").map_err(failure)?;

    assert_eq!(alias.id(), derived.id());
    assert_eq!(alias.name(), "recent_orders");
    assert_eq!(second.id(), 2);
    assert_eq!(second.kind(), LazyTableKind::DerivedSql);
    assert_eq!(session.derived_tables().len(), 1);
    let registered = session
        .registered_derived_table("RECENT_ORDERS")
        .ok_or("registered derived alias missing")?;
    assert_eq!(registered.table(), &alias);
    assert_eq!(registered.schema().fields().len(), 2);
    Ok(())
}

#[test]
fn registered_derived_alias_retains_sql_text() -> TestResult {
    let mut session = DeltaFunnelSession::new(SessionOptions::default()).map_err(failure)?;
    add_source(&mut session, "orders")?;
    let derived = table_from_sql(&mut session, "select id, customer_name from orders")
        .map_err(failure)?;

    let alias = session
        .register_alias("recent_orders", &derived)
        .map_err(failure)?;
    let registered = session
        .registered_derived_table("RECENT_ORDERS")
        .ok_or("registered derived alias missing")?;

    assert_eq!(
        session.sql_text_for_derived_table(&alias).map_err(failure)?,
        "select id, customer_name from orders"
    );
    assert_eq!(
        registered.sql_text(),
        "select id, customer_name from orders"
    );
    assert_eq!(
        session.sql_text_for_derived_table(&derived).map_err(failure)?,
        "select id, customer_name from orders"
    );
    Ok(())
}

#[test]
fn empty_sql_fails_before_lazy_table_allocation() -> TestResult {
    let mut session = DeltaFunnelSession::new(SessionOptions::default()).map_err(failure)?;

    let error = table_from_sql(&mut session, " \n\t ");

    assert!(matches!(
        error,
        Err(DeltaFunnelError::SqlTable {
            phase: SqlTablePhase::ValidateSql,
            message,
        }) if message.contains("must not be empty")
    ));
    assert_eq!(session.next_table_id(), 0);
    assert!(session.derived_tables().is_empty());
    Ok(())
}

#[test]
fn multiple_sql_statements_fail_before_lazy_table_allocation() -> TestResult {
    let mut session = DeltaFunnelSession::new(SessionOptions::default()).map_err(failure)?;
    add_source(&mut session, "orders")?;

    let error = table_from_sql(&mut session, "select id from orders; select id from orders");

    assert!(matches!(
        error,
        Err(DeltaFunnelError::SqlTable {
            phase: SqlTablePhase::ValidateSql,
            ..
        })
    ));
    assert_eq!(session.next_table_id(), 1);
    assert!(session.derived_tables().is_empty());
    Ok(())
}

#[test]
fn ddl_sql_fails_before_alias_registration() -> TestResult {
    let mut session = DeltaFunnelSession::new(SessionOptions::default()).map_err(failure)?;
    add_source(&mut session, "orders")?;

    let error = table_from_sql(
        &mut session,
        "create table created_orders as select id from orders",
    );

    assert!(matches!(
        error,
        Err(DeltaFunnelError::SqlTable {
            phase: SqlTablePhase::ValidateSql,
            ..
        })
    ));
    assert_eq!(session.next_table_id(), 1);
    assert!(session.derived_tables().is_empty());
    Ok(())
}

#[test]
fn dml_sql_fails_before_alias_registration() -> TestResult {
    let mut session = DeltaFunnelSession::new(SessionOptions::default()).map_err(failure)?;
    add_source(&mut session, "orders")?;

    let error = table_from_sql(
        &mut session,
        "insert into orders select id, customer_name from orders",
    );

    assert!(matches!(
        error,
        Err(DeltaFunnelError::SqlTable {
            phase: SqlTablePhase::ValidateSql,
            ..
        })
    ));
    assert_eq!(session.next_table_id(), 1);
    assert!(session.derived_tables().is_empty());
    Ok(())
}

#[test]
fn missing_table_sql_fails_with_planning_context() -> TestResult {
    let mut session = DeltaFunnelSession::new(SessionOptions::default()).map_err(failure)?;

    let error = table_from_sql(&mut session, "select id from missing_orders");

    assert!(matches!(
        error,
        Err(DeltaFunnelError::SqlTable {
            phase: SqlTablePhase::PlanSql,
            message,
        }) if message.contains("missing_orders")
    ));
    assert_eq!(session.next_table_id(), 0);
    assert!(session.derived_tables().is_empty());
    Ok(())
}

#[test]
fn derived_alias_duplicate_with_source_fails_before_registration() -> TestResult {
    let mut session = DeltaFunnelSession::new(SessionOptions::default()).map_err(failure)?;
    add_source(&mut session, "orders")?;
    let derived = table_from_sql(&mut session, "select id from orders").map_err(failure)?;

    let error = session.register_alias("ORDERS", &derived);

    assert!(matches!(
        error,
        Err(DeltaFunnelError::DuplicateSourceName { name }) if name == "ORDERS"
    ));
    assert!(session.derived_tables().is_empty());
    assert!(block_on(session.context().table("ORDERS")).is_ok());
    let alias = session
        .register_alias("recent_orders", &derived)
        .map_err(failure)?;
    assert_eq!(alias.name(), "recent_orders");
    assert_eq!(session.derived_tables().len(), 1);
    Ok(())
}

#[test]
fn invalid_derived_alias_fails_without_consuming_pending_table() -> TestResult {
    let mut session = DeltaFunnelSession::new(SessionOptions::default()).map_err(failure)?;
    add_source(&mut session, "orders")?;
    let derived = table_from_sql(&mut session, "select id from orders").map_err(failure)?;

    let error = session.register_alias("select", &derived);

    assert!(matches!(
        error,
        Err(DeltaFunnelError::InvalidSourceName { name, .. }) if name == "select"
    ));
    assert!(session.derived_tables().is_empty());
    let alias = session
        .register_alias("recent_orders", &derived)
        .map_err(failure)?;
    assert_eq!(alias.name(), "recent_orders");
    assert_eq!(session.derived_tables().len(), 1);
    Ok(())
}

#[test]
fn invalid_derived_alias_preserves_pending_sql_text() -> TestResult {
    let mut session = DeltaFunnelSession::new(SessionOptions::default()).map_err(failure)?;
    add_source(&mut session, "orders")?;
    let derived = table_from_sql(&mut session, "select id from orders").map_err(failure)?;

    let error = session.register_alias("select", &derived);

    assert!(matches!(
        error,
        Err(DeltaFunnelError::InvalidSourceName { name, .. }) if name == "select"
    ));
    assert_eq!(
        session.sql_text_for_derived_table(&derived).map_err(failure)?,
        "select id from orders"
    );
    let alias = session
        .register_alias("recent_orders", &derived)
        .map_err(failure)?;
    assert_eq!(
        session.sql_text_for_derived_table(&alias).map_err(failure)?,
        "select id from orders"
    );
    Ok(())
}

#[test]
fn register_alias_rejects_non_pending_table_handle() -> TestResult {
    let mut session = DeltaFunnelSession::new(SessionOptions::default()).map_err(failure)?;
    let source = add_source(&mut session, "orders")?;

    let error = session.register_alias("recent_orders", &source);

    assert!(matches!(
        error,
        Err(DeltaFunnelError::SqlTable {
            phase: SqlTablePhase::RegisterDerivedAlias,
            message,
        }) if message.contains("pending SQL-derived table")
    ));
    assert!(session.derived_tables().is_empty());
    assert!(block_on(session.context().table("recent_orders")).is_err());
    Ok(())
}

#[test]
fn derived_alias_duplicate_with_derived_alias_fails_before_registration() -> TestResult {
    let mut session = DeltaFunnelSession::new(SessionOptions::default()).map_err(failure)?;
    add_source(&mut session, "orders")?;
    let first = table_from_sql(&mut session, "select id from orders").map_err(failure)?;
    session
        .register_alias("recent_orders", &first)
        .map_err(failure)?;
    let second = table_from_sql(&mut session, "select id from orders").map_err(failure)?;

    let error = session.register_alias("RECENT_ORDERS", &second);

    assert!(matches!(
        error,
        Err(DeltaFunnelError::DuplicateSourceName { name }) if name == "RECENT_ORDERS"
    ));
    assert_eq!(session.derived_tables().len(), 1);
    assert!(block_on(session.context().table("RECENT_ORDERS")).is_ok());
    Ok(())
}

#[test]
fn registered_derived_debug_redacts_retained_sql_text() -> TestResult {
    let mut session = DeltaFunnelSession::new(SessionOptions::default()).map_err(failure)?;
    let derived = table_from_sql(&mut session, "select 'super-secret-literal' as marker")
        .map_err(failure)?;
    session
        .register_alias("secret_marker", &derived)
        .map_err(failure)?;
    let registered = session
        .registered_derived_table("secret_marker")
        .ok_or("registered derived alias missing")?;

    let debug = registered.debug_text();

    assert!(debug.contains("sql_text"));
    assert!(debug.contains("<redacted>"));
    assert!(!debug.contains("super-secret-literal"));
    assert!(!debug.contains("select '"));
    let debug = session.debug_text();
    assert!(debug.contains("secret_marker"));
    assert!(debug.contains("next_table_id: 1"));
    assert!(!debug.contains("super-secret-literal"));
    Ok(())
}

#[test]
fn source_alias_duplicate_with_derived_alias_fails_before_loading_source() -> TestResult {
    let mut session = DeltaFunnelSession::new(SessionOptions::default()).map_err(failure)?;
    add_source(&mut session, "orders")?;
    let derived = table_from_sql(&mut session, "select id from orders").map_err(failure)?;
    session
        .register_alias("recent_orders", &derived)
        .map_err(failure)?;

    let error = session.delta_lake("RECENT_ORDERS", Ok(vec![loaded_source("RECENT_ORDERS")]));

    assert!(matches!(
        error,
        Err(DeltaFunnelError::DuplicateSourceName { name }) if name == "RECENT_ORDERS"
    ));
    assert_eq!(session.sources().len(), 1);
    assert_eq!(session.derived_tables().len(), 1);
    Ok(())
}

#[test]
fn scoped_cache_alias_guard_accepts_registered_derived_alias() -> TestResult {
    let mut session = DeltaFunnelSession::new(SessionOptions::default()).map_err(failure)?;
    let pending = table_from_sql(&mut session, "select 1 as id").map_err(failure)?;
    let alias = session
        .register_alias("cached_candidate", &pending)
        .map_err(failure)?;

    let registered = session
        .registered_derived_for_scoped_cache_alias(&alias)
        .map_err(failure)?;

    assert_eq!(registered.table(), &alias);
    assert_eq!(registered.name(), "cached_candidate");
    Ok(())
}

#[test]
fn scoped_cache_alias_guard_rejects_raw_source_before_catalog_replacement() -> TestResult {
    let mut session = DeltaFunnelSession::new(SessionOptions::default()).map_err(failure)?;
    let source = add_source(&mut session, "orders")?;

    let error = session.registered_derived_for_scoped_cache_alias(&source);

    assert!(matches!(
        error,
        Err(DeltaFunnelError::MssqlWorkflowPlanning { message })
            if message.contains("not registered in this session")
    ));
    assert!(session.registered_source("orders").is_some());
    Ok(())
}

#[test]
fn scoped_cache_alias_guard_rejects_pending_derived_before_catalog_replacement() -> TestResult {
    let mut session = DeltaFunnelSession::new(SessionOptions::default()).map_err(failure)?;
    let pending = table_from_sql(&mut session, "select 1 as id").map_err(failure)?;

    let error = session.registered_derived_for_scoped_cache_alias(&pending);

    assert!(matches!(
        error,
        Err(DeltaFunnelError::MssqlWorkflowPlanning { message })
            if message.contains("not registered in this session")
    ));
    assert!(session.derived_tables().is_empty());
    Ok(())
}

#[test]
fn scoped_cache_alias_guard_rejects_unknown_derived_handle() -> Result<(), DeltaFunnelError> {
    let session = DeltaFunnelSession::new(SessionOptions::default())?;
    let unknown = LazyTable::placeholder(252, LazyTableKind::DerivedSql);

    let error = session.registered_derived_for_scoped_cache_alias(&unknown);

    assert!(matches!(
        error,
        Err(DeltaFunnelError::MssqlWorkflowPlanning { message })
            if message.contains("not registered in this session")
    ));
    Ok(())
}

#[test]
fn lineage_names_sources_aliases_external_tables_and_ctes() -> TestResult {
    let mut session = DeltaFunnelSession::new(SessionOptions::default()).map_err(failure)?;
    let orders = add_source(&mut session, "orders")?;
    let pending = table_from_sql(&mut session, "select id from orders").map_err(failure)?;
    let big = session.register_alias("big", &pending).map_err(failure)?;

    let lineage = session.derive_table_lineage_from_sql(
        "with recent as (select id from ORDERS) \
         select recent.id from recent join BIG on recent.id = big.id join other on true",
    );

    let DerivedTableLineage::Complete {
        dependencies,
        external_references,
        cte_names,
    } = &lineage
    else {
        return Err("expected complete lineage".into());
    };
    assert!(dependencies.contains(&DerivedTableDependency::DeltaSource {
        table_id: orders.id(),
        name: "orders".to_owned(),
    }));
    assert!(
        dependencies.contains(&DerivedTableDependency::RegisteredDerived {
            table_id: big.id(),
            name: "big".to_owned(),
        })
    );
    assert_eq!(dependencies.len(), 2);
    assert_eq!(external_references, &vec!["other".to_owned()]);
    assert_eq!(cte_names, &vec!["recent".to_owned()]);
    Ok(())
}

#[test]
fn lineage_of_several_statements_or_of_no_sql_is_incomplete() -> TestResult {
    let session = DeltaFunnelSession::new(SessionOptions::default()).map_err(failure)?;

    assert!(
        !session
            .derive_table_lineage_from_sql("select 1; select 2")
            .is_complete()
    );
    assert!(
        !session
            .derive_table_lineage_from_sql("not a statement")
            .is_complete()
    );
    assert!(session.derive_table_lineage_from_sql("select 1").is_complete());
    Ok(())
}

#[test]
fn refused_alias_leaves_the_table_pending() -> TestResult {
    let mut session = DeltaFunnelSession::new(SessionOptions::default()).map_err(failure)?;
    let first = table_from_sql(&mut session, "select 1 as id").map_err(failure)?;
    let second = table_from_sql(&mut session, "select 2 as id").map_err(failure)?;

    let error = session.complete_alias(0, Err("catalog is closed".to_owned()));

    assert!(matches!(
        error,
        Err(DeltaFunnelError::SqlTable { phase: SqlTablePhase::RegisterDerivedAlias, message })
            if message == "catalog is closed"
    ));
    assert_eq!(session.find_pending_derived_table(&first), Some(1));
    assert_eq!(session.find_pending_derived_table(&second), Some(0));
    let alias = session.register_alias("big", &first).map_err(failure)?;
    assert_eq!(alias.id(), first.id());
    assert_eq!(session.find_pending_derived_table(&first), None);
    let entry = session
        .derived_tables()
        .last()
        .and_then(RegisteredDerivedTable::catalog_entry)
        .ok_or("expected a catalog entry")?;
    assert_eq!(entry.name(), "big");
    let held = block_on(session.context().table("big"))?;
    assert_eq!(entry.plan().schema().as_arrow(), held.schema().as_arrow());
    Ok(())
}

#[test]
fn catalog_refuses_an_alias_that_it_holds_already() -> TestResult {
    let mut session = DeltaFunnelSession::new(SessionOptions::default()).map_err(failure)?;
    let provider = MemTable::try_new(orders_schema(), vec![vec![]])?;
    session.context().register_table("big", Arc::new(provider))?;
    let pending = table_from_sql(&mut session, "select 1 as id").map_err(failure)?;

    let error = session.register_alias("big", &pending);

    assert!(matches!(
        error,
        Err(DeltaFunnelError::SqlTable { phase: SqlTablePhase::RegisterDerivedAlias, .. })
    ));
    assert_eq!(session.find_pending_derived_table(&pending), Some(0));
    Ok(())
}

#[test]
fn registered_tables_are_read_through_the_catalog() -> TestResult {
    let mut session = DeltaFunnelSession::new(SessionOptions::default()).map_err(failure)?;
    let orders = add_source(&mut session, "orders")?;
    let pending = table_from_sql(&mut session, "select id from orders").map_err(failure)?;
    let big = session.register_alias("big", &pending).map_err(failure)?;

    for (table, name) in [(&orders, "orders"), (&big, "big"), (&pending, "big")] {
        let read = session.dataframe_for_lazy_table(table).map_err(failure)?;
        let LazyTableRead::CatalogTable(found) = read else {
            return Err("expected a catalog table".into());
        };
        assert_eq!(found, name);
        let dataframe = registered_read(
            block_on(session.context().table(found.as_str())).map_err(|error| error.to_string()),
        )
        .map_err(failure)?;
        let rows: usize = block_on(dataframe.collect())?
            .iter()
            .map(|batch| batch.num_rows())
            .sum();
        assert_eq!(rows, 2);
    }
    Ok(())
}

#[test]
fn batch_stream_for_lazy_table_reads_pending_derived_provider() -> TestResult {
    let options = SessionOptions::new().with_query_options(QueryOptions {
        target_partitions: None,
        output_batch_size: Some(1),
    });
    let mut session = DeltaFunnelSession::new(options).map_err(failure)?;
    let derived = table_from_sql(&mut session, "select 1 as id union all select 2 as id")
        .map_err(failure)?;

    let read = session.dataframe_for_lazy_table(&derived).map_err(failure)?;
    let LazyTableRead::Planned(dataframe) = read else {
        return Err("expected a planned scan".into());
    };
    assert_eq!(dataframe.schema().field(0).name(), "id");
    let rows: usize = block_on(dataframe.collect())?
        .iter()
        .map(|batch| batch.num_rows())
        .sum();
    assert_eq!(rows, 2);
    Ok(())
}

#[test]
fn batch_stream_for_lazy_table_rejects_unknown_table_before_execution() -> TestResult {
    let session = DeltaFunnelSession::new(SessionOptions::default()).map_err(failure)?;
    for kind in [LazyTableKind::DerivedSql, LazyTableKind::DeltaSource] {
        let unknown = LazyTable::placeholder(42, kind);
        assert!(matches!(
            session.dataframe_for_lazy_table(&unknown),
            Err(DeltaFunnelError::MssqlWorkflowPlanning { message })
                if message.contains("not registered in this session")
        ));
        assert!(session.schema_for_lazy_table(&unknown).is_err());
        assert!(session.sql_text_for_derived_table(&unknown).is_err());
    }
    Ok(())
}

#[test]
fn refused_reads_name_their_step() {
    assert!(matches!(
        pending_read(Err("no".to_owned())),
        Err(DeltaFunnelError::BatchPipeline { option: "pending_table", message, .. })
            if message == "no"
    ));
    assert!(matches!(
        registered_read(Err("no".to_owned())),
        Err(DeltaFunnelError::BatchPipeline { option: "registered_table", message, .. })
            if message == "no"
    ));
}

#[test]
fn planner_messages_are_classified() {
    for message in [
        "DDL not supported: CreateTable",
        "DML not supported: Insert",
        "Statement not supported: Set",
        "The context currently only supports a single SQL statement",
    ] {
        assert_eq!(classify_sql_error_phase(message), SqlTablePhase::ValidateSql);
    }
    assert_eq!(
        classify_sql_error_phase("table 'x' not found"),
        SqlTablePhase::PlanSql
    );
}

#[test]
fn table_schemas_are_known_by_handle() -> TestResult {
    let mut session = DeltaFunnelSession::new(SessionOptions::default()).map_err(failure)?;
    let orders = add_source(&mut session, "orders")?;
    let pending = table_from_sql(&mut session, "select id from orders").map_err(failure)?;

    assert_eq!(
        session.schema_for_lazy_table(&orders).map_err(failure)?.fields().len(),
        2
    );
    let schema = session.schema_for_lazy_table(&pending).map_err(failure)?;
    assert_eq!(schema.fields().len(), 1);
    assert_eq!(schema.field(0).name(), "id");
    Ok(())
}

#[test]
fn source_debug_shows_where_a_source_comes_from() -> TestResult {
    let mut session = DeltaFunnelSession::new(SessionOptions::default()).map_err(failure)?;
    add_source(&mut session, "orders")?;

    assert_eq!(
        session.sources()[0].debug_text(),
        "RegisteredSessionSource { \
         table: LazyTable { id: LazyTableId(0), kind: DeltaSource, name: \"orders\" }, \
         source_uri: \"file:///tables/orders\", snapshot_version: 1, \
         schema: Schema { fields: [\
         Field { name: \"id\", data_type: Int64, nullable: true }, \
         Field { name: \"customer_name\", data_type: Utf8, nullable: true }] }, \
         protocol: DeltaProtocolReport { source_name: \"orders\", \
         min_reader_version: 1, min_writer_version: 2 } }"
    );
    assert!(session.debug_text().contains("file:///tables/orders"));
    Ok(())
}

#[test]
fn derived_debug_shows_columns_and_lineage() -> TestResult {
    let mut session = DeltaFunnelSession::new(SessionOptions::default()).map_err(failure)?;
    add_source(&mut session, "orders")?;
    let pending = table_from_sql(
        &mut session,
        "with recent as (select id from orders) select id from recent",
    )
    .map_err(failure)?;
    session.register_alias("ids", &pending).map_err(failure)?;

    assert_eq!(
        session.derived_tables()[0].debug_text(),
        "RegisteredDerivedTable { \
         table: LazyTable { id: LazyTableId(1), kind: DerivedSql, name: \"ids\" }, \
         schema: Schema { fields: [Field { name: \"id\", data_type: Int64, nullable: true }] }, \
         sql_text: \"<redacted>\", \
         lineage: Complete { \
         dependencies: [DeltaSource { table_id: 0, name: \"orders\" }], \
         external_references: [], cte_names: [\"recent\"] } }"
    );
    Ok(())
}

#[test]
fn batch_stream_for_lazy_table_reads_registered_derived_alias() -> TestResult {
    let mut session = DeltaFunnelSession::new(SessionOptions::default()).map_err(failure)?;
    let derived = table_from_sql(&mut session, "select 'alice' as customer_name")
        .map_err(failure)?;
    let alias = session
        .register_alias("customer_names", &derived)
        .map_err(failure)?;

    let LazyTableRead::CatalogTable(name) =
        session.dataframe_for_lazy_table(&alias).map_err(failure)?
    else {
        return Err("expected a registered read".into());
    };
    let dataframe = registered_read(
        block_on(session.context().table(name.as_str())).map_err(|error| error.to_string()),
    )
    .map_err(failure)?;
    let rows: usize = block_on(dataframe.collect())?
        .iter()
        .map(|batch| batch.num_rows())
        .sum();

    assert_eq!(rows, 1);
    Ok(())
}

#[test]
fn datafusion_sql_ast_captures_session_alias_dependencies_before_planning() -> TestResult {
    let mut session = DeltaFunnelSession::new(SessionOptions::default()).map_err(failure)?;
    add_source(&mut session, "orders")?;
    let pending_big = table_from_sql(&mut session, "select id, customer_name from orders")
        .map_err(failure)?;
    let big = session.register_alias("big", &pending_big).map_err(failure)?;
    let on_big = || {
        DerivedTableLineage::complete(
            vec![DerivedTableDependency::RegisteredDerived {
                table_id: big.id(),
                name: "big".to_owned(),
            }],
            Vec::new(),
            Vec::new(),
        )
    };

    assert_eq!(
        session.derive_table_lineage_from_sql("select * from big where customer_name = 'alice'"),
        on_big()
    );
    assert_eq!(
        session.derive_table_lineage_from_sql("select * from BIG where customer_name = 'alice'"),
        on_big()
    );
    assert_eq!(
        session.derive_table_lineage_from_sql("select * from big b"),
        on_big()
    );
    assert_eq!(
        session.derive_table_lineage_from_sql(
            "select * from big join other_alias on big.id = other_alias.id"
        ),
        DerivedTableLineage::complete(
            vec![DerivedTableDependency::RegisteredDerived {
                table_id: big.id(),
                name: "big".to_owned(),
            }],
            vec!["other_alias".to_owned()],
            Vec::new(),
        )
    );
    assert_eq!(
        session.derive_table_lineage_from_sql("select * from (select * from big) b"),
        on_big()
    );

    let shadowed = session
        .derive_table_lineage_from_sql("with big as (select * from orders) select * from big");
    assert_eq!(
        shadowed,
        DerivedTableLineage::complete(
            vec![DerivedTableDependency::DeltaSource {
                table_id: 0,
                name: "orders".to_owned(),
            }],
            Vec::new(),
            vec!["big".to_owned()],
        )
    );

    assert!(session.registered_derived_table("big").is_some());
    assert!(session.registered_source("big").is_none());
    assert!(session.registered_source("orders").is_some());
    assert!(session.registered_derived_table("orders").is_none());
    assert_eq!(
        session
            .derive_table_lineage_from_sql("select * from big")
            .derived_ids(),
        vec![big.id()]
    );
    assert!(shadowed.derived_ids().is_empty());
    Ok(())
}

#[test]
fn set_target_partitions_are_reported_for_every_source() -> TestResult {
    let options = SessionOptions::new().with_query_options(QueryOptions {
        target_partitions: Some(4),
        output_batch_size: None,
    });
    let mut session = DeltaFunnelSession::new(options).map_err(failure)?;
    add_source(&mut session, "orders")?;
    add_source(&mut session, "customers")?;

    let reports = session.source_reports();

    assert_eq!(reports.len(), 2);
    for report in &reports {
        assert_eq!(report.scheduling().query_target_partitions(), Some(4));
    }
    Ok(())
}
