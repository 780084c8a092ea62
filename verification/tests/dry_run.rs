use std::any::Any;
use std::future::Future;
use std::pin::Pin;
use std::sync::Arc;
use std::sync::atomic::AtomicUsize;

use datafusion::arrow::array::{Int64Array, RecordBatch, StringArray};
use datafusion::arrow::datatypes::{DataType, Field, Schema, SchemaRef};
use datafusion::catalog::Session;
use datafusion::datasource::{MemTable, TableProvider};
use datafusion::error::DataFusionError;
use datafusion::logical_expr::{Expr, TableType};
use datafusion::physical_plan::ExecutionPlan;
use delta_funnel::dry_run::{
    MssqlDryRunOutputReport, MssqlDryRunSqlIdentityState, ensure_dry_run_mode,
    ensure_write_all_dry_run_mode,
};
use delta_funnel::errors::DeltaFunnelError;
use delta_funnel::handles::{
    LazyTable, LazyTableKind, MssqlOutputTarget, OutputWritePlan, RunMode,
};
use delta_funnel::options::{DryRunScanSummaryMode, SessionOptions, ValidationOptions};
use delta_funnel::registry::{DeltaProtocolReport, RegisteredDeltaSource};
use delta_funnel::execution::DeltaProviderReadStatsSnapshot;
use delta_funnel::report::{
    FileCount, OutputStatus, PhaseStatus, PhaseTimingReport, ReportReasonCode, RowCount,
    ValidationStatus, WorkflowStatus,
};
use delta_funnel::runtime::{DeltaFunnelRuntime, check_blocking_call, reject_nested_runtime};
use delta_funnel::session::{DeltaFunnelSession, read_only_sql_options};
use delta_funnel::source_usage::SourceUsageStatus;
use delta_funnel::target::{
    LoadMode, MssqlConnectionConfig, MssqlTargetConfig, MssqlTargetTable,
};
use delta_funnel::target_plan::MssqlTargetTableState;

type TestResult = Result<(), Box<dyn std::error::Error>>;

type ScanResult = Result<Arc<dyn ExecutionPlan>, DataFusionError>;

fn block_on<F: Future>(future: F) -> F::Output {
    match tokio::runtime::Builder::new_current_thread().build() {
        Ok(runtime) => runtime.block_on(future),
        Err(error) => panic!("no runtime: {error}"),
    }
}

fn failure(error: DeltaFunnelError) -> String {
    error.display_text()
}

fn orders_schema() -> Arc<Schema> {
    Arc::new(Schema::new(vec![
        Field::new("id", DataType::Int64, true),
        Field::new("customer_name", DataType::Utf8, true),
    ]))
}

fn add_source(
    session: &mut DeltaFunnelSession,
    name: &str,
) -> Result<LazyTable, Box<dyn std::error::Error>> {
    let batch = RecordBatch::try_new(
        orders_schema(),
        vec![
            Arc::new(Int64Array::from(vec![1, 2])),
            Arc::new(StringArray::from(vec!["alice", "bob"])),
        ],
    )?;
    let provider = MemTable::try_new(orders_schema(), vec![vec![batch]])?;
    session.context().register_table(name, Arc::new(provider))?;
    let loaded = RegisteredDeltaSource {
        name: name.to_owned(),
        table_uri: format!("file:///tables/{name}"),
        snapshot_version: 1,
        schema: orders_schema(),
        protocol: DeltaProtocolReport {
            source_name: name.to_owned(),
            min_reader_version: 1,
            min_writer_version: 2,
        },
    };
    Ok(session.delta_lake(name, Ok(vec![loaded])).map_err(failure)?)
}

fn table_from_sql(
    session: &mut DeltaFunnelSession,
    sql: &str,
) -> Result<LazyTable, Box<dyn std::error::Error>> {
    let text = session.prepare_table_sql(sql).map_err(failure)?;
    let planned = block_on(
        session
            .context()
            .sql_with_options(&text, read_only_sql_options()),
    )
    .map_err(|error| error.to_string());
    Ok(session.table_from_sql(sql, planned).map_err(failure)?)
}

fn request(
    table: LazyTable,
    output_name: &str,
    target_table: &str,
    load_mode: LoadMode,
    run_mode: RunMode,
) -> Result<OutputWritePlan, DeltaFunnelError> {
    let target = MssqlTargetConfig::new(MssqlTargetTable::new("dbo", target_table)?)
        .with_load_mode(load_mode);
    Ok(OutputWritePlan::new(
        table,
        MssqlOutputTarget::new(output_name, target, run_mode),
    ))
}

fn output_request(
    table: LazyTable,
    output_name: &str,
    target_table: &str,
    load_mode: LoadMode,
) -> Result<OutputWritePlan, Box<dyn std::error::Error>> {
    Ok(request(table, output_name, target_table, load_mode, RunMode::DryRun).map_err(failure)?)
}

fn secret_connection() -> Result<MssqlConnectionConfig, DeltaFunnelError> {
    Ok(MssqlConnectionConfig::new(
        "server=tcp:sql.example.com;database=warehouse;user=admin;password=secret-token",
    )?
    .with_display_label("warehouse-primary"))
}

fn connected_session() -> Result<DeltaFunnelSession, Box<dyn std::error::Error>> {
    Ok(DeltaFunnelSession::new(
        SessionOptions::new()
            .with_default_mssql_connection(secret_connection().map_err(failure)?),
    )
    .map_err(failure)?)
}

#[derive(Debug, Clone, Default)]
struct Scans(Arc<AtomicUsize>);

impl Scans {
    fn add_one(&self) {
        self.0.fetch_add(1, std::sync::atomic::Ordering::SeqCst);
    }

    fn count(&self) -> usize {
        self.0.load(std::sync::atomic::Ordering::SeqCst)
    }
}

fn marker_region_schema() -> SchemaRef {
    Arc::new(Schema::new(vec![
        Field::new("marker", DataType::Utf8, false),
        Field::new("region", DataType::Utf8, false),
    ]))
}

fn marker_region_table(marker: &str) -> Result<MemTable, Box<dyn std::error::Error>> {
    let batch = RecordBatch::try_new(
        marker_region_schema(),
        vec![
            Arc::new(StringArray::from(vec![marker, marker])),
            Arc::new(StringArray::from(vec!["west", "east"])),
        ],
    )?;
    Ok(MemTable::try_new(marker_region_schema(), vec![vec![batch]])?)
}

#[derive(Debug)]
struct MarkerProvider {
    rows: MemTable,
    scans: Scans,
}

impl TableProvider for MarkerProvider {
    fn as_any(&self) -> &dyn Any {
        self
    }

    fn schema(&self) -> SchemaRef {
        marker_region_schema()
    }

    fn table_type(&self) -> TableType {
        TableType::Base
    }

    fn scan<'life0, 'life1, 'life2, 'life3, 'async_trait>(
        &'life0 self,
        state: &'life1 dyn Session,
        projection: Option<&'life2 Vec<usize>>,
        filters: &'life3 [Expr],
        limit: Option<usize>,
    ) -> Pin<Box<dyn Future<Output = ScanResult> + Send + 'async_trait>>
    where
        'life0: 'async_trait,
        'life1: 'async_trait,
        'life2: 'async_trait,
        'life3: 'async_trait,
        Self: 'async_trait,
    {
        self.scans.add_one();
        self.rows.scan(state, projection, filters, limit)
    }
}

fn add_markers(
    session: &DeltaFunnelSession,
    name: &str,
    marker: &str,
) -> Result<Scans, Box<dyn std::error::Error>> {
    let scans = Scans::default();
    session.context().register_table(
        name,
        Arc::new(MarkerProvider {
            rows: marker_region_table(marker)?,
            scans: scans.clone(),
        }),
    )?;
    Ok(scans)
}

fn phase_timing<'a>(
    report: &'a MssqlDryRunOutputReport,
    phase_name: &str,
) -> Result<&'a PhaseTimingReport, Box<dyn std::error::Error>> {
    report
        .phase_timings()
        .iter()
        .find(|timing| timing.phase_name() == phase_name)
        .ok_or_else(|| format!("missing phase timing `{phase_name}`").into())
}

#[test]
fn dry_run_to_mssql_plans_output_without_row_or_writer_side_effects() -> TestResult {
    let mut session = connected_session()?;
    let source_scans = add_markers(&session, "orders_source", "shared")?;
    let output = table_from_sql(
        &mut session,
        "select marker from orders_source where region = 'west'",
    )?;
    let request = output_request(
        output,
        "west_output",
        "west_orders",
        LoadMode::CreateAndLoad,
    )?;

    let report = session.dry_run_to_mssql(&request).map_err(failure)?;

    assert_eq!(report.output_name(), "west_output");
    assert_eq!(report.run_mode(), RunMode::DryRun);
    assert_eq!(report.status(), OutputStatus::dry_run_planned());
    assert_eq!(
        report.validation_status(),
        ValidationStatus::skipped(ReportReasonCode::DryRun)
    );
    assert_eq!(report.target_table().schema(), Some("dbo"));
    assert_eq!(report.target_table().table(), "west_orders");
    assert_eq!(report.load_mode(), LoadMode::CreateAndLoad);
    assert_eq!(
        report.planned_output().output_plan().expected_target_state(),
        MssqlTargetTableState::Absent
    );
    assert_eq!(
        report.planned_output().output_plan().target_table().table(),
        "west_orders"
    );
    assert_eq!(report.output_schema().len(), 1);
    assert_eq!(report.output_schema()[0].index(), 0);
    assert_eq!(report.output_schema()[0].name(), "marker");
    assert_eq!(report.output_schema()[0].arrow_type(), "Utf8");
    assert!(!report.output_schema()[0].nullable());
    assert_eq!(report.source_usage_status(), SourceUsageStatus::NotUsed);
    assert!(report.used_source_names().is_empty());
    assert_eq!(report.output_row_count(), RowCount::unavailable());
    assert_eq!(
        report.output_row_count_reason(),
        Some(ReportReasonCode::NotExecuted)
    );
    assert_eq!(
        report.sql_identity().state(),
        MssqlDryRunSqlIdentityState::Present
    );
    assert_eq!(report.sql_identity().hash(), Some("a65390dacb7eb6f1"));
    assert_eq!(report.sql_identity().reason(), None);
    let debug = report.debug_text();
    assert!(debug.contains("a65390dacb7eb6f1"));
    assert!(!debug.contains("select marker"));
    assert!(!debug.contains("region = 'west'"));
    assert!(!report.sql_server_contacted());
    assert!(!report.row_production_started());
    assert!(!report.table_lifecycle_started());
    assert!(!report.bulk_writer_started());
    assert_eq!(report.phase_timings().len(), 6);
    let planning = phase_timing(&report, "sql_target_planning")?;
    assert_eq!(planning.status(), PhaseStatus::completed());
    assert!(planning.elapsed_micros().is_some());
    for phase_name in [
        "query_execution",
        "batch_shaping",
        "sql_write",
        "finalize",
        "validation",
    ] {
        let timing = phase_timing(&report, phase_name)?;
        assert_eq!(
            timing.status(),
            PhaseStatus::skipped(ReportReasonCode::DryRun)
        );
        assert_eq!(timing.elapsed_micros(), None);
    }
    assert_eq!(source_scans.count(), 0);
    Ok(())
}

#[test]
fn dry_run_all_to_mssql_reports_all_outputs_without_row_side_effects() -> TestResult {
    let mut session = connected_session()?;
    let source_scans = add_markers(&session, "orders_source", "shared")?;
    let west = table_from_sql(
        &mut session,
        "select marker from orders_source where region = 'west'",
    )?;
    let east = table_from_sql(
        &mut session,
        "select marker from orders_source where region = 'east'",
    )?;
    let west_table_id = west.id();
    let west_table_name = west.name().to_owned();
    let west = output_request(west, "west_output", "west_orders", LoadMode::CreateAndLoad)?;
    let east = output_request(east, "east_output", "east_orders", LoadMode::AppendExisting)?;

    let report = session
        .dry_run_all_to_mssql(&vec![west, east])
        .map_err(failure)?;

    assert_eq!(report.run_mode(), RunMode::DryRun);
    assert_eq!(report.status(), WorkflowStatus::success());
    assert_eq!(report.len(), 2);
    assert!(!report.is_empty());
    assert_eq!(report.outputs()[0].output_name(), "west_output");
    assert_eq!(report.outputs()[1].output_name(), "east_output");
    assert_eq!(report.outputs()[0].table_id(), west_table_id);
    assert_eq!(report.outputs()[0].table_kind(), LazyTableKind::DerivedSql);
    assert_eq!(report.outputs()[0].table_name(), west_table_name);
    assert_eq!(
        report.outputs()[0].status(),
        OutputStatus::dry_run_planned()
    );
    assert_eq!(
        report.outputs()[0].validation_status(),
        ValidationStatus::skipped(ReportReasonCode::DryRun)
    );
    assert_eq!(
        report.outputs()[0].output_row_count(),
        RowCount::unavailable()
    );
    assert_eq!(
        report.outputs()[0].output_row_count_reason(),
        Some(ReportReasonCode::NotExecuted)
    );
    assert!(report.sources().is_empty());
    assert_eq!(report.outputs()[0].target_table().table(), "west_orders");
    assert_eq!(report.outputs()[0].load_mode(), LoadMode::CreateAndLoad);
    assert_eq!(
        report.outputs()[0]
            .planned_output()
            .output_plan()
            .expected_target_state(),
        MssqlTargetTableState::Absent
    );
    assert_eq!(report.outputs()[1].target_table().table(), "east_orders");
    assert_eq!(report.outputs()[1].load_mode(), LoadMode::AppendExisting);
    assert_eq!(
        report.outputs()[1]
            .planned_output()
            .output_plan()
            .expected_target_state(),
        MssqlTargetTableState::Exists
    );
    assert!(!report.sql_server_contacted());
    assert!(!report.row_production_started());
    assert!(!report.table_lifecycle_started());
    assert!(!report.bulk_writer_started());
    assert_eq!(source_scans.count(), 0);
    Ok(())
}

#[test]
fn dry_run_all_to_mssql_includes_registered_delta_source_reports() -> TestResult {
    let mut session = connected_session()?;
    let source = add_source(&mut session, "orders")?;
    let request = output_request(
        source,
        "orders_output",
        "orders_sink",
        LoadMode::CreateAndLoad,
    )?;

    let report = session
        .dry_run_all_to_mssql(&vec![request])
        .map_err(failure)?;

    assert_eq!(report.outputs().len(), 1);
    assert!(!report.query_used_source_scan_metadata_exhausted());
    assert_eq!(
        report.outputs()[0].sql_identity().state(),
        MssqlDryRunSqlIdentityState::Absent
    );
    assert_eq!(report.outputs()[0].sql_identity().hash(), None);
    assert_eq!(report.outputs()[0].sql_identity().reason(), None);
    assert_eq!(
        report.outputs()[0].source_usage_status(),
        SourceUsageStatus::Used
    );
    assert_eq!(
        report.outputs()[0].used_source_names(),
        &["orders".to_owned()]
    );
    assert_eq!(report.sources().len(), 1);
    let source = &report.sources()[0];
    assert_eq!(source.source_name(), "orders");
    assert_eq!(source.snapshot_version(), 1);
    assert_eq!(source.protocol().source_name, "orders");
    assert_eq!(source.file_count(), FileCount::unavailable());
    assert_eq!(
        source.file_count_reason(),
        Some(ReportReasonCode::CostAvoidance)
    );
    assert!(!source.scan_metadata_exhausted());
    assert_eq!(source.usage_status(), SourceUsageStatus::Used);
    assert_eq!(source.used_by_output_names(), &["orders_output".to_owned()]);
    assert!(!report.row_production_started());
    Ok(())
}

#[test]
fn dry_run_all_to_mssql_reports_multi_source_usage_when_lineage_is_known() -> TestResult {
    let mut session = connected_session()?;
    add_source(&mut session, "orders")?;
    add_source(&mut session, "customers")?;
    add_source(&mut session, "inventory")?;
    let joined = table_from_sql(
        &mut session,
        "select orders.id from orders inner join customers on orders.id = customers.id",
    )?;
    let request = output_request(
        joined,
        "joined_output",
        "joined_sink",
        LoadMode::CreateAndLoad,
    )?;

    let report = session
        .dry_run_all_to_mssql(&vec![request])
        .map_err(failure)?;

    assert!(!report.query_used_source_scan_metadata_exhausted());
    assert_eq!(
        report.outputs()[0].source_usage_status(),
        SourceUsageStatus::Used
    );
    assert_eq!(
        report.outputs()[0].used_source_names(),
        &["orders".to_owned(), "customers".to_owned()]
    );
    assert_eq!(report.sources().len(), 3);
    for source in report.sources() {
        match source.source_name() {
            "orders" | "customers" => {
                assert_eq!(source.usage_status(), SourceUsageStatus::Used);
                assert_eq!(source.used_by_output_names(), &["joined_output".to_owned()]);
            }
            "inventory" => {
                assert_eq!(source.usage_status(), SourceUsageStatus::NotUsed);
                assert!(source.used_by_output_names().is_empty());
            }
            name => return Err(format!("unexpected source report: {name}").into()),
        }
    }
    Ok(())
}

#[test]
fn source_usage_reaches_through_registered_aliases() -> TestResult {
    let mut session = connected_session()?;
    add_source(&mut session, "orders")?;
    add_source(&mut session, "customers")?;
    let pending = table_from_sql(&mut session, "select id from orders")?;
    session.register_alias("big", &pending).map_err(failure)?;
    let pending = table_from_sql(&mut session, "select id from big")?;
    session.register_alias("deep", &pending).map_err(failure)?;
    let output = table_from_sql(&mut session, "select id from deep")?;

    let (status, names) = session
        .source_usage_for_lazy_table(&output)
        .map_err(failure)?;

    assert_eq!(status, SourceUsageStatus::Used);
    assert_eq!(names, vec!["orders".to_owned()]);
    assert!(session.source_usage_is_known(&output));
    let unknown = LazyTable::placeholder(99, LazyTableKind::DeltaSource);
    assert!(session.source_usage_for_lazy_table(&unknown).is_err());
    Ok(())
}

#[test]
fn dry_run_all_to_mssql_rejects_execute_request_before_row_side_effects() -> TestResult {
    let mut session = connected_session()?;
    let source_scans = add_markers(&session, "orders_source", "shared")?;
    let output = table_from_sql(&mut session, "select marker from orders_source")?;
    let request = request(
        output,
        "orders_output",
        "orders_sink",
        LoadMode::AppendExisting,
        RunMode::Execute,
    )
    .map_err(failure)?;

    let error = session.dry_run_all_to_mssql(&vec![request]);

    assert!(matches!(
        error,
        Err(DeltaFunnelError::MssqlWorkflowPlanning { message })
            if message.contains("dry_run_all_to_mssql requires RunMode::DryRun")
    ));
    assert_eq!(source_scans.count(), 0);
    Ok(())
}

#[test]
fn dry_run_all_to_mssql_rejects_missing_connection_before_row_side_effects() -> TestResult {
    let mut session = DeltaFunnelSession::new(SessionOptions::default()).map_err(failure)?;
    let source_scans = add_markers(&session, "orders_source", "shared")?;
    let output = table_from_sql(&mut session, "select marker from orders_source")?;
    let request = output_request(
        output,
        "orders_output",
        "orders_sink",
        LoadMode::AppendExisting,
    )?;

    let error = session.dry_run_all_to_mssql(&vec![request]);

    assert!(matches!(
        error,
        Err(DeltaFunnelError::MissingMssqlConnection { output_name })
            if output_name == "orders_output"
    ));
    assert_eq!(source_scans.count(), 0);
    Ok(())
}

#[test]
fn dry_run_all_to_mssql_rejects_duplicate_output_names() -> TestResult {
    let mut session = connected_session()?;
    let west = table_from_sql(&mut session, "select 1 as id")?;
    let east = table_from_sql(&mut session, "select 2 as id")?;
    let west = output_request(
        west,
        "orders_output",
        "west_orders",
        LoadMode::AppendExisting,
    )?;
    let east = output_request(
        east,
        "orders_output",
        "east_orders",
        LoadMode::AppendExisting,
    )?;

    let error = session.dry_run_all_to_mssql(&vec![west, east]);

    assert!(matches!(
        error,
        Err(DeltaFunnelError::MssqlWorkflowPlanning { message })
            if message.contains("write_all output names must be unique")
                && message.contains("orders_output")
    ));
    Ok(())
}

#[test]
fn dry_run_to_mssql_rejects_execute_request_before_planning() -> TestResult {
    let mut session = connected_session()?;
    let output = table_from_sql(&mut session, "select 1 as id")?;
    let request = request(
        output,
        "orders_output",
        "orders_sink",
        LoadMode::AppendExisting,
        RunMode::Execute,
    )
    .map_err(failure)?;

    let error = session.dry_run_to_mssql(&request);

    assert!(matches!(
        error,
        Err(DeltaFunnelError::MssqlWorkflowPlanning { message })
            if message.contains("dry_run_to_mssql requires RunMode::DryRun")
    ));
    assert!(ensure_dry_run_mode(RunMode::DryRun).is_ok());
    assert!(ensure_write_all_dry_run_mode(RunMode::DryRun).is_ok());
    Ok(())
}

#[test]
fn dry_run_to_mssql_rejects_missing_connection_before_side_effects() -> TestResult {
    let mut session = DeltaFunnelSession::new(SessionOptions::default()).map_err(failure)?;
    let source = add_source(&mut session, "orders")?;
    let request = output_request(
        source,
        "orders_output",
        "orders_sink",
        LoadMode::AppendExisting,
    )?;

    let error = session.dry_run_to_mssql(&request);

    assert!(matches!(
        error,
        Err(DeltaFunnelError::MissingMssqlConnection { output_name })
            if output_name == "orders_output"
    ));
    Ok(())
}

#[test]
fn dry_run_to_mssql_rejects_replace_before_side_effects() -> TestResult {
    let mut session = connected_session()?;
    let source = add_source(&mut session, "orders")?;
    let request = output_request(source, "orders_output", "orders_sink", LoadMode::Replace)?;

    let error = session.dry_run_to_mssql(&request);

    assert!(matches!(
        error,
        Err(DeltaFunnelError::MssqlLifecyclePlanning { output_name, message })
            if output_name == "orders_output" && message.contains("replace load mode")
    ));
    Ok(())
}

#[test]
fn dry_run_to_mssql_report_debug_redacts_connection_material() -> TestResult {
    let mut session = connected_session()?;
    let source = add_source(&mut session, "orders")?;
    let override_connection = MssqlConnectionConfig::new(
        "server=tcp:override.example.com;user=admin;password=override-secret",
    )
    .map_err(failure)?
    .with_display_label("warehouse-override");
    let target_config =
        MssqlTargetConfig::new(MssqlTargetTable::new("dbo", "orders_sink").map_err(failure)?)
            .with_connection(override_connection);
    let request = OutputWritePlan::new(
        source,
        MssqlOutputTarget::new("orders_output", target_config, RunMode::DryRun),
    );

    let report = session.dry_run_to_mssql(&request).map_err(failure)?;
    let debug = report.debug_text();

    assert!(debug.contains("orders_output"));
    assert!(debug.contains("warehouse-override"));
    assert!(!debug.contains("secret-token"));
    assert!(!debug.contains("override-secret"));
    assert!(!debug.contains("password"));
    assert!(!debug.contains("server=tcp"));
    Ok(())
}

#[test]
fn scan_summary_mode_decides_whether_execution_is_planned() -> TestResult {
    let session = connected_session()?;
    assert!(!session.dry_run_exhausts_scan_metadata());
    let session = DeltaFunnelSession::new(
        SessionOptions::new().with_validation_options(
            ValidationOptions::new()
                .with_dry_run_scan_summary_mode(DryRunScanSummaryMode::ExhaustScanMetadata),
        ),
    )
    .map_err(failure)?;
    assert!(session.dry_run_exhausts_scan_metadata());
    Ok(())
}

#[test]
fn identity_of_unknown_derived_tables_is_unavailable() -> TestResult {
    let session = connected_session()?;
    let identity =
        session.sql_identity_for_lazy_table(&LazyTable::placeholder(5, LazyTableKind::DerivedSql));
    assert_eq!(identity.state(), MssqlDryRunSqlIdentityState::Unavailable);
    assert_eq!(
        identity.reason(),
        Some(ReportReasonCode::CapabilityUnavailable)
    );
    assert_eq!(identity.hash(), None);
    Ok(())
}

#[test]
fn runtime_constructs_without_starting_session_work() -> TestResult {
    let runtime = DeltaFunnelRuntime::new().map_err(failure)?;
    assert_eq!(runtime.runtime().block_on(async { 7 }), 7);
    Ok(())
}

#[test]
fn runtime_drives_multi_output_dry_run() -> TestResult {
    let runtime = DeltaFunnelRuntime::new().map_err(failure)?;
    let mut session = connected_session()?;
    let west = table_from_sql(&mut session, "select 1 as id")?;
    let east = table_from_sql(&mut session, "select 2 as id")?;
    let west = output_request(west, "west_output", "west_orders", LoadMode::AppendExisting)?;
    let east = output_request(east, "east_output", "east_orders", LoadMode::AppendExisting)?;

    let report = runtime
        .dry_run_all_to_mssql(&session, &vec![west, east])
        .map_err(failure)?;

    assert_eq!(report.len(), 2);
    assert_eq!(report.outputs()[0].output_name(), "west_output");
    assert_eq!(report.outputs()[1].output_name(), "east_output");
    assert!(!report.sql_server_contacted());
    assert!(!report.row_production_started());
    Ok(())
}

#[test]
fn runtime_preserves_sanitized_session_errors() -> TestResult {
    let runtime = DeltaFunnelRuntime::new().map_err(failure)?;
    let mut session = DeltaFunnelSession::new(SessionOptions::default()).map_err(failure)?;
    let output = table_from_sql(&mut session, "select 1 as id")?;
    let request = output_request(
        output,
        "orders_output",
        "orders_sink",
        LoadMode::AppendExisting,
    )?;

    let error = runtime.dry_run_to_mssql(&session, &request);

    assert!(matches!(
        error,
        Err(DeltaFunnelError::MissingMssqlConnection { output_name })
            if output_name == "orders_output"
    ));
    Ok(())
}

#[test]
fn runtime_rejects_blocking_calls_inside_active_tokio_runtime() -> TestResult {
    let runtime = DeltaFunnelRuntime::new().map_err(failure)?;
    let mut session = connected_session()?;
    let output = table_from_sql(&mut session, "select 1 as id")?;
    let request = output_request(
        output,
        "orders_output",
        "orders_sink",
        LoadMode::AppendExisting,
    )?;

    let error = block_on(async { runtime.dry_run_to_mssql(&session, &request) });

    assert!(matches!(
        error,
        Err(DeltaFunnelError::Config { message })
            if message.contains("cannot be called from inside an active Tokio runtime")
                && message.contains("DeltaFunnelSession async APIs")
    ));
    assert!(block_on(async { reject_nested_runtime() }).is_err());
    assert!(reject_nested_runtime().is_ok());
    assert!(check_blocking_call(true).is_err());
    assert!(check_blocking_call(false).is_ok());
    let workflow = block_on(async { runtime.dry_run_all_to_mssql(&session, &vec![]) });
    assert!(matches!(workflow, Err(DeltaFunnelError::Config { .. })));
    Ok(())
}

#[test]
fn runtime_that_cannot_start_is_a_configuration_error() {
    assert!(matches!(
        DeltaFunnelRuntime::from_start(Err("no threads".to_owned())),
        Err(DeltaFunnelError::Config { message })
            if message == "failed to create DeltaFunnel runtime: no threads"
    ));
}

fn scanned(exhausted: Option<bool>) -> DeltaProviderReadStatsSnapshot {
    DeltaProviderReadStatsSnapshot {
        source_name: "orders".to_owned(),
        snapshot_version: 1,
        files_planned: 3,
        files_handled: 0,
        files_started: 0,
        files_completed: 0,
        batches_produced: 0,
        rows_produced: 0,
        scan_metadata_exhausted: exhausted,
    }
}

#[test]
fn scan_summaries_count_the_files_of_used_sources() -> TestResult {
    for (exhausted, count, reason) in [
        (Some(true), FileCount::exact(3), None),
        (Some(false), FileCount::estimated(3), None),
        (
            None,
            FileCount::unavailable(),
            Some(ReportReasonCode::CapabilityUnavailable),
        ),
    ] {
        let mut session = DeltaFunnelSession::new(
            SessionOptions::new()
                .with_default_mssql_connection(secret_connection().map_err(failure)?)
                .with_validation_options(
                    ValidationOptions::new()
                        .with_dry_run_scan_summary_mode(DryRunScanSummaryMode::ExhaustScanMetadata),
                ),
        )
        .map_err(failure)?;
        let source = add_source(&mut session, "orders")?;
        add_source(&mut session, "customers")?;
        let request = output_request(
            source,
            "orders_output",
            "orders_sink",
            LoadMode::CreateAndLoad,
        )?;

        let report = session
            .dry_run_all_to_mssql_with_scan_summary(
                &vec![request],
                Ok(vec![scanned(exhausted), scanned(Some(true))]),
            )
            .map_err(failure)?;

        assert_eq!(report.outputs().len(), 1);
        assert!(!report.outputs()[0].row_production_started());
        assert_eq!(report.sources().len(), 2);
        let source = &report.sources()[0];
        assert_eq!(source.usage_status(), SourceUsageStatus::Used);
        assert_eq!(source.used_by_output_names(), &["orders_output".to_owned()]);
        assert_eq!(source.provider_stats_reason(), None);
        assert_eq!(source.provider_read_stats(), Some(&scanned(exhausted)));
        assert_eq!(source.file_count(), count);
        assert_eq!(source.file_count_reason(), reason);
        assert_eq!(source.scan_metadata_exhausted(), exhausted == Some(true));
        assert_eq!(
            report.query_used_source_scan_metadata_exhausted(),
            source.scan_metadata_exhausted()
        );
        let unread = &report.sources()[1];
        assert_eq!(unread.usage_status(), SourceUsageStatus::NotUsed);
        assert_eq!(unread.provider_read_stats(), None);
        assert_eq!(unread.file_count(), FileCount::unavailable());
    }
    Ok(())
}

#[test]
fn failed_scan_planning_matters_only_where_it_is_asked_for() -> TestResult {
    let failed = || DeltaFunnelError::Config {
        message: "no scan".to_owned(),
    };
    let mut session = connected_session()?;
    let output = table_from_sql(&mut session, "select 1 as id")?;
    let request = output_request(
        output,
        "orders_output",
        "orders_sink",
        LoadMode::AppendExisting,
    )?;
    assert!(
        session
            .dry_run_all_to_mssql_with_scan_summary(&vec![request], Err(failed()))
            .is_ok()
    );

    let exhausting = ValidationOptions::new()
        .with_dry_run_scan_summary_mode(DryRunScanSummaryMode::ExhaustScanMetadata);
    let mut session = DeltaFunnelSession::new(
        SessionOptions::new()
            .with_default_mssql_connection(secret_connection().map_err(failure)?)
            .with_validation_options(exhausting),
    )
    .map_err(failure)?;
    let output = table_from_sql(&mut session, "select 1 as id")?;
    let request = output_request(
        output.clone(),
        "orders_output",
        "orders_sink",
        LoadMode::AppendExisting,
    )?;
    assert!(matches!(
        session.dry_run_all_to_mssql_with_scan_summary(&vec![request], Err(failed())),
        Err(DeltaFunnelError::Config { message }) if message == "no scan"
    ));
    let request = output_request(output, "orders_output", "orders_sink", LoadMode::Replace)?;
    assert!(matches!(
        session.dry_run_all_to_mssql_with_scan_summary(&vec![request], Err(failed())),
        Err(DeltaFunnelError::MssqlLifecyclePlanning { .. })
    ));
    Ok(())
}
