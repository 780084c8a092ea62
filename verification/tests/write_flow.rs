use std::any::Any;
use std::future::Future;
use std::pin::Pin;
use std::sync::Arc;
use std::sync::atomic::AtomicUsize;

use datafusion::arrow::array::{Array, RecordBatch, StringArray};
use datafusion::arrow::datatypes::{DataType, Field, Schema, SchemaRef};
use datafusion::catalog::Session;
use datafusion::datasource::{MemTable, TableProvider};
use datafusion::error::DataFusionError;
use datafusion::logical_expr::{Expr, TableType};
use datafusion::physical_plan::ExecutionPlan;
use datafusion::prelude::DataFrame;
use delta_funnel::cache_plan::{MssqlDerivedCacheAliasPlan, MssqlOutputCacheDecision};
use delta_funnel::errors::{
    DeltaFunnelError, datafusion_handoff_setup_error, mssql_scoped_cache_alias_error,
};
use delta_funnel::execution::DeltaProviderReadStatsSnapshot;
use delta_funnel::handles::{LazyTable, MssqlOutputTarget, OutputWritePlan, RunMode};
use delta_funnel::options::SessionOptions;
use delta_funnel::output_plan::MssqlOutputWriteJob;
use delta_funnel::registry::{DeltaProtocolReport, RegisteredDeltaSource};
use delta_funnel::report::FileCount;
use delta_funnel::routes::{MssqlCachedOutputStreamRoute, replanned_output};
use delta_funnel::runtime::DeltaFunnelRuntime;
use delta_funnel::session::{
    DeltaFunnelSession, LazyTableRead, read_only_sql_options, registered_read,
};
use delta_funnel::target::{
    LoadMode, MssqlConnectionConfig, MssqlConnectionSource, MssqlTargetConfig, MssqlTargetTable,
};
use delta_funnel::workflow::{
    CachedWriteRun, CachedWriteStep, MssqlOutputWriteStatus, MssqlWorkflowWriteReport,
    MssqlWriteReport, WorkflowRun,
};
use delta_funnel::write_all::{
    WriteAllCacheAliasStatus, WriteAllCacheMode, WriteAllCacheReport, WriteAllNoCacheReason,
    WriteAllOptions, WriteAllPlan, WriteAllReport,
};

type TestResult = Result<(), Box<dyn std::error::Error>>;

type ScanResult = Result<Arc<dyn ExecutionPlan>, DataFusionError>;

fn block_on<F: Future>(future: F) -> F::Output {
    match tokio::runtime::Builder::new_current_thread().build() {
        Ok(runtime) => runtime.block_on(future),
        Err(error) => panic!("no runtime: {error}"),
    }
}

fn failure(error: DeltaFunnelError) -> String {
    error.display_text()
}

#[derive(Debug, Clone, Default)]
struct Scans(Arc<AtomicUsize>);

impl Scans {
    fn add_one(&self) {
        self.0.fetch_add(1, std::sync::atomic::Ordering::SeqCst);
    }

    fn count(&self) -> usize {
        self.0.load(std::sync::atomic::Ordering::SeqCst)
    }
}

fn marker_region_schema() -> SchemaRef {
    Arc::new(Schema::new(vec![
        Field::new("marker", DataType::Utf8, false),
        Field::new("region", DataType::Utf8, false),
    ]))
}

fn marker_region_table(marker: &str) -> Result<MemTable, Box<dyn std::error::Error>> {
    let batch = RecordBatch::try_new(
        marker_region_schema(),
        vec![
            Arc::new(StringArray::from(vec![marker, marker])),
            Arc::new(StringArray::from(vec!["west", "east"])),
        ],
    )?;
    Ok(MemTable::try_new(marker_region_schema(), vec![vec![batch]])?)
}

#[derive(Debug)]
struct MarkerProvider {
    rows: Option<MemTable>,
    scans: Scans,
}

impl TableProvider for MarkerProvider {
    fn as_any(&self) -> &dyn Any {
        self
    }

    fn schema(&self) -> SchemaRef {
        marker_region_schema()
    }

    fn table_type(&self) -> TableType {
        TableType::Base
    }

    fn scan<'life0, 'life1, 'life2, 'life3, 'async_trait>(
        &'life0 self,
        state: &'life1 dyn Session,
        projection: Option<&'life2 Vec<usize>>,
        filters: &'life3 [Expr],
        limit: Option<usize>,
    ) -> Pin<Box<dyn Future<Output = ScanResult> + Send + 'async_trait>>
    where
        'life0: 'async_trait,
        'life1: 'async_trait,
        'life2: 'async_trait,
        'life3: 'async_trait,
        Self: 'async_trait,
    {
        self.scans.add_one();
        match &self.rows {
            Some(rows) => rows.scan(state, projection, filters, limit),
            None => Box::pin(async {
                Err(DataFusionError::Plan(
                    "forced scan planning failure".to_owned(),
                ))
            }),
        }
    }
}

fn add_markers(
    session: &DeltaFunnelSession,
    name: &str,
    marker: &str,
) -> Result<Scans, Box<dyn std::error::Error>> {
    let scans = Scans::default();
    session.context().register_table(
        name,
        Arc::new(MarkerProvider {
            rows: Some(marker_region_table(marker)?),
            scans: scans.clone(),
        }),
    )?;
    Ok(scans)
}

fn add_failing_markers(
    session: &DeltaFunnelSession,
    name: &str,
) -> Result<Scans, Box<dyn std::error::Error>> {
    let scans = Scans::default();
    session.context().register_table(
        name,
        Arc::new(MarkerProvider {
            rows: None,
            scans: scans.clone(),
        }),
    )?;
    Ok(scans)
}

fn secret_connection() -> Result<MssqlConnectionConfig, DeltaFunnelError> {
    Ok(MssqlConnectionConfig::new(
        "server=tcp:sql.example.com;database=warehouse;user=admin;password=secret-token",
    )?
    .with_display_label("warehouse-primary"))
}

fn connected_session() -> Result<DeltaFunnelSession, Box<dyn std::error::Error>> {
    Ok(DeltaFunnelSession::new(
        SessionOptions::new()
            .with_default_mssql_connection(secret_connection().map_err(failure)?),
    )
    .map_err(failure)?)
}

fn default_session() -> Result<DeltaFunnelSession, Box<dyn std::error::Error>> {
    Ok(DeltaFunnelSession::new(SessionOptions::default()).map_err(failure)?)
}

fn request(
    table: LazyTable,
    output_name: &str,
    target_table: &str,
    load_mode: LoadMode,
    run_mode: RunMode,
) -> Result<OutputWritePlan, Box<dyn std::error::Error>> {
    let target =
        MssqlTargetConfig::new(MssqlTargetTable::new("dbo", target_table).map_err(failure)?)
            .with_load_mode(load_mode);
    Ok(OutputWritePlan::new(
        table,
        MssqlOutputTarget::new(output_name, target, run_mode),
    ))
}

fn output_request(
    table: LazyTable,
    output_name: &str,
    target_table: &str,
    load_mode: LoadMode,
) -> Result<OutputWritePlan, Box<dyn std::error::Error>> {
    request(table, output_name, target_table, load_mode, RunMode::DryRun)
}

fn execute_output_request(
    table: LazyTable,
    output_name: &str,
    target_table: &str,
    load_mode: LoadMode,
) -> Result<OutputWritePlan, Box<dyn std::error::Error>> {
    request(table, output_name, target_table, load_mode, RunMode::Execute)
}

async fn plan_read_only_sql(session: &DeltaFunnelSession, sql: &str) -> Result<DataFrame, String> {
    session
        .context()
        .sql_with_options(sql, read_only_sql_options())
        .await
        .map_err(|error| error.to_string())
}

async fn plan_table(
    session: &mut DeltaFunnelSession,
    sql: &str,
) -> Result<LazyTable, DeltaFunnelError> {
    let text = session.prepare_table_sql(sql)?;
    let planned = plan_read_only_sql(session, &text).await;
    session.table_from_sql(sql, planned)
}

fn table_from_sql(
    session: &mut DeltaFunnelSession,
    sql: &str,
) -> Result<LazyTable, Box<dyn std::error::Error>> {
    Ok(block_on(plan_table(session, sql)).map_err(failure)?)
}

fn alias_from_sql(
    session: &mut DeltaFunnelSession,
    name: &str,
    sql: &str,
) -> Result<LazyTable, Box<dyn std::error::Error>> {
    let pending = table_from_sql(session, sql)?;
    Ok(session.register_alias(name, &pending).map_err(failure)?)
}

async fn dataframe_for_lazy_table(
    session: &DeltaFunnelSession,
    table: &LazyTable,
) -> Result<DataFrame, DeltaFunnelError> {
    match session.dataframe_for_lazy_table(table)? {
        LazyTableRead::Planned(dataframe) => Ok(dataframe),
        LazyTableRead::CatalogTable(name) => registered_read(
            session
                .context()
                .table(name.as_str())
                .await
                .map_err(|error| error.to_string()),
        ),
    }
}

async fn rows_of(
    session: &DeltaFunnelSession,
    dataframe: DataFrame,
) -> Result<Vec<RecordBatch>, DeltaFunnelError> {
    let plan = dataframe
        .create_physical_plan()
        .await
        .map_err(|error| datafusion_handoff_setup_error("physical_plan", &error.to_string()))?;
    datafusion::physical_plan::collect(plan, session.context().task_ctx())
        .await
        .map_err(|error| {
            datafusion_handoff_setup_error("query_output_stream", &error.to_string())
        })
}

async fn rows_of_table(
    session: &DeltaFunnelSession,
    table: &LazyTable,
) -> Result<Vec<RecordBatch>, DeltaFunnelError> {
    let dataframe = dataframe_for_lazy_table(session, table).await?;
    rows_of(session, dataframe).await
}

fn row_count(batches: &[RecordBatch]) -> usize {
    batches.iter().map(RecordBatch::num_rows).sum()
}

fn markers(batches: &[RecordBatch]) -> Result<Vec<String>, Box<dyn std::error::Error>> {
    let mut found = Vec::new();
    for batch in batches {
        let column = batch
            .column(0)
            .as_any()
            .downcast_ref::<StringArray>()
            .ok_or("expected a marker column")?;
        for row in 0..column.len() {
            found.push(column.value(row).to_owned());
        }
    }
    Ok(found)
}

struct ReplacedAlias {
    name: String,
    original: Arc<dyn TableProvider>,
}

async fn replace_alias(
    session: &DeltaFunnelSession,
    table: &LazyTable,
) -> Result<ReplacedAlias, DeltaFunnelError> {
    let registered = session.registered_derived_for_scoped_cache_alias(table)?;
    let name = registered.name();
    let failed = |message: String| mssql_scoped_cache_alias_error("materialize", name, &message);
    let rows = dataframe_for_lazy_table(session, table)
        .await?
        .collect()
        .await
        .map_err(|error| failed(error.to_string()))?;
    let cached = MemTable::try_new(Arc::clone(registered.schema()), vec![rows])
        .map_err(|error| failed(error.to_string()))?;
    let original = session
        .context()
        .deregister_table(name)
        .map_err(|error| failed(error.to_string()))?
        .ok_or_else(|| failed("alias is not in the catalog".to_owned()))?;
    session
        .context()
        .register_table(name, Arc::new(cached))
        .map_err(|error| failed(error.to_string()))?;
    Ok(ReplacedAlias {
        name: name.to_owned(),
        original,
    })
}

fn restore_alias(
    session: &DeltaFunnelSession,
    replaced: Option<ReplacedAlias>,
) -> Result<(), DeltaFunnelError> {
    let Some(replaced) = replaced else {
        return Err(mssql_scoped_cache_alias_error(
            "restore",
            "",
            "original provider was already restored",
        ));
    };
    let failed =
        |message: String| mssql_scoped_cache_alias_error("restore", &replaced.name, &message);
    session
        .context()
        .deregister_table(replaced.name.as_str())
        .map_err(|error| failed(error.to_string()))?;
    session
        .context()
        .register_table(replaced.name.as_str(), Arc::clone(&replaced.original))
        .map_err(|error| failed(error.to_string()))?;
    Ok(())
}

async fn cached_output_rows(
    session: &DeltaFunnelSession,
    table: &LazyTable,
    output_name: &str,
    expected: &Schema,
    route: &MssqlCachedOutputStreamRoute,
) -> Result<Vec<RecordBatch>, DeltaFunnelError> {
    match route {
        MssqlCachedOutputStreamRoute::DirectCachedAlias(_)
        | MssqlCachedOutputStreamRoute::UncachedLazyTable => rows_of_table(session, table).await,
        MssqlCachedOutputStreamRoute::ReplannedCachedDependency(_) => {
            let replanned = match session.sql_text_for_derived_table(table) {
                Ok(sql) => plan_read_only_sql(session, sql).await,
                Err(error) => Err(error.display_text()),
            };
            let dataframe = replanned_output(output_name, expected, replanned)?;
            rows_of(session, dataframe).await
        }
    }
}

fn routed_rows(
    session: &DeltaFunnelSession,
    output: &OutputWritePlan,
    caches: &Vec<MssqlDerivedCacheAliasPlan>,
) -> Result<Vec<RecordBatch>, DeltaFunnelError> {
    let route = session.cached_output_stream_route(output, caches)?;
    let expected = Arc::clone(session.schema_for_lazy_table(output.table())?);
    block_on(cached_output_rows(
        session,
        output.table(),
        output.target().output_name(),
        expected.as_ref(),
        &route,
    ))
}

struct WriteCall {
    output_name: String,
    target_table: String,
    target_schema: Option<String>,
    connection_source: MssqlConnectionSource,
    rows: u64,
    batches: u64,
    schema_fields: usize,
}

#[derive(Default)]
struct FakeWriter {
    calls: Vec<WriteCall>,
    fail_output_name: Option<String>,
    expected_schemas: Vec<(String, Schema)>,
}

impl FakeWriter {
    fn failing_on(output_name: &str) -> Self {
        FakeWriter {
            fail_output_name: Some(output_name.to_owned()),
            ..FakeWriter::default()
        }
    }

    fn write_output(
        &mut self,
        job: &MssqlOutputWriteJob,
        batches: &[RecordBatch],
    ) -> Result<MssqlWriteReport, DeltaFunnelError> {
        let output_name = job.resolved_target().output_name();
        let rows = u64::try_from(row_count(batches)).map_err(|_| DeltaFunnelError::Config {
            message: "row count overflowed u64".to_owned(),
        })?;
        let batch_count = u64::try_from(batches.len()).map_err(|_| DeltaFunnelError::Config {
            message: "batch count overflowed u64".to_owned(),
        })?;
        self.calls.push(WriteCall {
            output_name: output_name.to_owned(),
            target_table: job.resolved_target().table().table().to_owned(),
            target_schema: job.resolved_target().table().schema().map(str::to_owned),
            connection_source: job.resolved_target().connection_source(),
            rows,
            batches: batch_count,
            schema_fields: job.output_schema().fields().len(),
        });
        if self.fail_output_name.as_deref() == Some(output_name) {
            return Err(DeltaFunnelError::MssqlWorkflowPlanning {
                message: format!("fake workflow writer failed for `{output_name}`"),
            });
        }
        Ok(MssqlWriteReport {
            output_name: output_name.to_owned(),
            rows_written: rows,
            batches_written: batch_count,
        })
    }

    async fn write_job(
        &mut self,
        session: &DeltaFunnelSession,
        job: &MssqlOutputWriteJob,
    ) -> Result<MssqlWriteReport, DeltaFunnelError> {
        let output_name = job.resolved_target().output_name();
        let expected = self
            .expected_schemas
            .iter()
            .find(|(name, _)| name == output_name)
            .map_or(job.output_schema().as_ref(), |(_, schema)| schema);
        let rows =
            cached_output_rows(session, job.table(), output_name, expected, job.route()).await?;
        self.write_output(job, &rows)
    }
}

async fn write_outputs(
    session: &DeltaFunnelSession,
    plan: &WriteAllPlan,
    aliases: &Vec<MssqlDerivedCacheAliasPlan>,
    writer: &mut FakeWriter,
) -> Result<MssqlWorkflowWriteReport, DeltaFunnelError> {
    let jobs = session.build_write_all_cached_jobs(plan.planned_outputs(), aliases)?;
    let names = jobs
        .iter()
        .map(|job| job.resolved_target().output_name().to_owned())
        .collect();
    let mut run = WorkflowRun::new(names);
    while let Some(index) = run.next_output() {
        run.record(writer.write_job(session, &jobs[index]).await);
    }
    Ok(run.finish())
}

async fn run_write_all(
    session: &DeltaFunnelSession,
    requests: &Vec<OutputWritePlan>,
    options: WriteAllOptions,
    writer: &mut FakeWriter,
) -> Result<WriteAllReport, DeltaFunnelError> {
    let plan = session.plan_write_all(requests, options)?;
    let aliases = plan.cache_aliases();
    let mut replaced = Vec::new();
    let mut run = CachedWriteRun::new(aliases.len());
    loop {
        match run.next_step() {
            CachedWriteStep::ReplaceAlias(index) => {
                let registered = session.registered_derived_table_by_id(aliases[index].table_id());
                let outcome = match registered {
                    Some(registered) => replace_alias(session, registered.table()).await,
                    None => Err(mssql_scoped_cache_alias_error("materialize", "", "unknown")),
                };
                run.alias_replaced(outcome.map(|alias| replaced.push(alias)));
            }
            CachedWriteStep::WriteOutputs => {
                let outcome = write_outputs(session, &plan, &aliases, writer).await;
                run.outputs_written(outcome);
            }
            CachedWriteStep::RestoreAlias(_) => {
                run.alias_restored(restore_alias(session, replaced.pop()));
            }
            CachedWriteStep::Finished => break,
        }
    }
    let workflow = run.finish()?;
    Ok(session.report_write_all(requests, &plan, workflow, &Vec::new()))
}

fn write_all_with_writer(
    session: &DeltaFunnelSession,
    requests: Vec<OutputWritePlan>,
    writer: &mut FakeWriter,
) -> Result<WriteAllReport, DeltaFunnelError> {
    block_on(run_write_all(
        session,
        &requests,
        WriteAllOptions::default(),
        writer,
    ))
}

async fn write_to_mssql_with_writer(
    session: &DeltaFunnelSession,
    request: &OutputWritePlan,
    writer: &mut FakeWriter,
) -> Result<MssqlWriteReport, DeltaFunnelError> {
    let planned = session.plan_write_to_mssql(request)?;
    let jobs = session.build_write_all_baseline_jobs(&vec![planned])?;
    writer.write_job(session, &jobs[0]).await
}

fn restored_rows(
    session: &DeltaFunnelSession,
    table: &LazyTable,
) -> Result<usize, Box<dyn std::error::Error>> {
    let rows = block_on(rows_of_table(session, table)).map_err(failure)?;
    Ok(row_count(&rows))
}

const BIG_SQL: &str = "select marker, region from big_source";
const WEST_SQL: &str = "select marker from big where region = 'west'";
const EAST_SQL: &str = "select marker from big where region = 'east'";

const KEYED_BIG_SQL: &str = "select marker as big_marker, region, \
     case when region = 'west' then 1 else 2 end as id \
     from big_source";
const KEYED_NAMES_SQL: &str = "select marker as name_marker, region, \
     case when region = 'west' then 1 else 2 end as id \
     from names_source";
const JOINED_WEST_SQL: &str = "select big.id, big.big_marker, names.name_marker \
     from big join names on big.id = names.id \
     where big.region = 'west'";
const JOINED_EAST_SQL: &str = "select big.id, big.big_marker, names.name_marker \
     from big join names on big.id = names.id \
     where big.region = 'east'";

#[test]
fn build_write_all_baseline_jobs_preserves_output_metadata_without_stream_setup() -> TestResult {
    let mut session = connected_session()?;
    let source_scans = add_markers(&session, "orders_source", "shared")?;
    let west = table_from_sql(
        &mut session,
        "select marker from orders_source where region = 'west'",
    )?;
    let east = table_from_sql(
        &mut session,
        "select marker from orders_source where region = 'east'",
    )?;
    let west =
        execute_output_request(west, "west_output", "west_orders", LoadMode::AppendExisting)?;
    let east = execute_output_request(east, "east_output", "east_orders", LoadMode::CreateAndLoad)?;
    let planned = session
        .plan_write_all_outputs(&vec![west, east])
        .map_err(failure)?;
    assert_eq!(source_scans.count(), 0);

    let jobs = session
        .build_write_all_baseline_jobs(&planned)
        .map_err(failure)?;

    assert_eq!(source_scans.count(), 0);
    assert_eq!(jobs.len(), 2);
    assert_eq!(jobs[0].resolved_target().output_name(), "west_output");
    assert_eq!(jobs[0].resolved_target().table().table(), "west_orders");
    assert_eq!(jobs[1].resolved_target().output_name(), "east_output");
    assert_eq!(jobs[1].resolved_target().table().table(), "east_orders");
    Ok(())
}

#[test]
fn write_all_with_writer_executes_valid_outputs_in_order() -> TestResult {
    let mut session = connected_session()?;
    let west = table_from_sql(&mut session, "select 1 as id union all select 2 as id")?;
    let east = table_from_sql(&mut session, "select 3 as id")?;
    let west =
        execute_output_request(west, "west_output", "west_orders", LoadMode::AppendExisting)?;
    let east = execute_output_request(east, "east_output", "east_orders", LoadMode::CreateAndLoad)?;
    let mut writer = FakeWriter::default();

    let report =
        write_all_with_writer(&session, vec![west, east], &mut writer).map_err(failure)?;

    let calls = &writer.calls;
    assert_eq!(calls.len(), 2);
    assert_eq!(calls[0].output_name, "west_output");
    assert_eq!(calls[0].target_table, "west_orders");
    assert_eq!(calls[0].rows, 2);
    assert_eq!(calls[1].output_name, "east_output");
    assert_eq!(calls[1].target_table, "east_orders");
    assert_eq!(calls[1].rows, 1);
    assert_eq!(report.len(), 2);
    assert!(report.all_succeeded());
    assert_eq!(report.outputs()[0].output_name(), "west_output");
    assert_eq!(report.outputs()[1].output_name(), "east_output");
    assert_eq!(report.workflow().outputs(), report.outputs());
    let MssqlOutputWriteStatus::Succeeded(west_report) = &report.outputs()[0] else {
        return Err(format!("expected succeeded status, got {:?}", report.outputs()[0]).into());
    };
    assert_eq!(west_report.rows_written, 2);
    assert_eq!(west_report.batches_written, calls[0].batches);
    Ok(())
}

#[test]
fn write_all_auto_no_candidate_uses_baseline_path() -> TestResult {
    let mut session = connected_session()?;
    let source_scans = add_markers(&session, "orders_source", "shared")?;
    let west = table_from_sql(
        &mut session,
        "select marker from orders_source where region = 'west'",
    )?;
    let east = table_from_sql(
        &mut session,
        "select marker from orders_source where region = 'east'",
    )?;
    let west =
        execute_output_request(west, "west_output", "west_orders", LoadMode::AppendExisting)?;
    let east =
        execute_output_request(east, "east_output", "east_orders", LoadMode::AppendExisting)?;
    let mut writer = FakeWriter::default();

    let report =
        write_all_with_writer(&session, vec![west, east], &mut writer).map_err(failure)?;

    let calls = &writer.calls;
    assert_eq!(calls.len(), 2);
    assert_eq!(calls[0].output_name, "west_output");
    assert_eq!(calls[0].rows, 1);
    assert_eq!(calls[1].output_name, "east_output");
    assert_eq!(calls[1].rows, 1);
    assert_eq!(source_scans.count(), 2);
    assert!(report.all_succeeded());
    assert!(matches!(
        report.cache(),
        WriteAllCacheReport::NoCache {
            reason: WriteAllNoCacheReason::NoSharedRegisteredDerivedAlias,
            skipped_candidates
        } if skipped_candidates.is_empty()
    ));
    Ok(())
}

#[test]
fn write_all_auto_caches_shared_alias_for_direct_and_dependent_outputs() -> TestResult {
    let mut session = connected_session()?;
    let source_scans = add_markers(&session, "big_source", "shared")?;
    let big = alias_from_sql(&mut session, "big", BIG_SQL)?;
    let west = table_from_sql(&mut session, WEST_SQL)?;
    let big_output = execute_output_request(
        big.clone(),
        "big_output",
        "big_orders",
        LoadMode::AppendExisting,
    )?;
    let west_output =
        execute_output_request(west, "west_output", "west_orders", LoadMode::AppendExisting)?;
    let mut writer = FakeWriter::default();

    let report = write_all_with_writer(&session, vec![big_output, west_output], &mut writer)
        .map_err(failure)?;

    let calls = &writer.calls;
    assert_eq!(calls.len(), 2);
    assert_eq!(calls[0].output_name, "big_output");
    assert_eq!(calls[0].rows, 2);
    assert_eq!(calls[1].output_name, "west_output");
    assert_eq!(calls[1].rows, 1);
    assert_eq!(source_scans.count(), 1);
    assert!(report.all_succeeded());
    let WriteAllCacheReport::CacheAliases {
        aliases,
        skipped_candidates,
    } = report.cache()
    else {
        return Err("expected cache aliases report".into());
    };
    assert!(skipped_candidates.is_empty());
    assert_eq!(aliases.len(), 1);
    assert_eq!(aliases[0].table_id(), big.id());
    assert_eq!(aliases[0].alias(), "big");
    assert_eq!(aliases[0].output_indexes(), &[0, 1]);
    assert_eq!(
        aliases[0].status(),
        WriteAllCacheAliasStatus::MaterializedAndRestored
    );

    assert_eq!(restored_rows(&session, &big)?, 2);
    assert_eq!(source_scans.count(), 2);
    Ok(())
}

#[test]
fn write_all_auto_caches_multiple_shared_aliases_for_dependent_outputs() -> TestResult {
    let mut session = connected_session()?;
    let big_source_scans = add_markers(&session, "big_source", "big")?;
    let names_source_scans = add_markers(&session, "names_source", "names")?;
    let big = alias_from_sql(&mut session, "big", KEYED_BIG_SQL)?;
    let names = alias_from_sql(&mut session, "names", KEYED_NAMES_SQL)?;
    let west = table_from_sql(&mut session, JOINED_WEST_SQL)?;
    let east = table_from_sql(&mut session, JOINED_EAST_SQL)?;
    let west_output =
        execute_output_request(west, "west_output", "west_orders", LoadMode::AppendExisting)?;
    let east_output =
        execute_output_request(east, "east_output", "east_orders", LoadMode::AppendExisting)?;
    let mut writer = FakeWriter::default();

    let report = write_all_with_writer(&session, vec![west_output, east_output], &mut writer)
        .map_err(failure)?;

    let calls = &writer.calls;
    assert_eq!(calls.len(), 2);
    assert_eq!(calls[0].output_name, "west_output");
    assert_eq!(calls[0].rows, 1);
    assert_eq!(calls[1].output_name, "east_output");
    assert_eq!(calls[1].rows, 1);
    assert_eq!(big_source_scans.count(), 1);
    assert_eq!(names_source_scans.count(), 1);
    assert!(report.all_succeeded());
    let WriteAllCacheReport::CacheAliases {
        aliases,
        skipped_candidates,
    } = report.cache()
    else {
        return Err("expected cache aliases report".into());
    };
    assert!(skipped_candidates.is_empty());
    assert_eq!(aliases.len(), 2);
    assert_eq!(aliases[0].table_id(), big.id());
    assert_eq!(aliases[0].alias(), "big");
    assert_eq!(aliases[0].output_indexes(), &[0, 1]);
    assert_eq!(
        aliases[0].status(),
        WriteAllCacheAliasStatus::MaterializedAndRestored
    );
    assert_eq!(aliases[1].table_id(), names.id());
    assert_eq!(aliases[1].alias(), "names");
    assert_eq!(aliases[1].output_indexes(), &[0, 1]);
    assert_eq!(
        aliases[1].status(),
        WriteAllCacheAliasStatus::MaterializedAndRestored
    );

    assert_eq!(restored_rows(&session, &big)?, 2);
    assert_eq!(restored_rows(&session, &names)?, 2);
    assert_eq!(big_source_scans.count(), 2);
    assert_eq!(names_source_scans.count(), 2);
    Ok(())
}

#[test]
fn write_all_auto_keeps_unrelated_output_on_normal_stream_path() -> TestResult {
    let mut session = connected_session()?;
    let shared_scans = add_markers(&session, "big_source", "shared")?;
    let unrelated_scans = add_markers(&session, "unrelated_source", "unrelated")?;
    let big = alias_from_sql(&mut session, "big", BIG_SQL)?;
    let west = table_from_sql(&mut session, WEST_SQL)?;
    let unrelated = table_from_sql(
        &mut session,
        "select marker from unrelated_source where region = 'west'",
    )?;
    let big_output =
        execute_output_request(big, "big_output", "big_orders", LoadMode::AppendExisting)?;
    let west_output =
        execute_output_request(west, "west_output", "west_orders", LoadMode::AppendExisting)?;
    let unrelated_output = execute_output_request(
        unrelated,
        "unrelated_output",
        "unrelated_orders",
        LoadMode::AppendExisting,
    )?;
    let mut writer = FakeWriter::default();

    let report = write_all_with_writer(
        &session,
        vec![big_output, unrelated_output, west_output],
        &mut writer,
    )
    .map_err(failure)?;

    let calls = &writer.calls;
    assert_eq!(calls.len(), 3);
    assert_eq!(calls[0].output_name, "big_output");
    assert_eq!(calls[0].rows, 2);
    assert_eq!(calls[1].output_name, "unrelated_output");
    assert_eq!(calls[1].rows, 1);
    assert_eq!(calls[2].output_name, "west_output");
    assert_eq!(calls[2].rows, 1);
    assert_eq!(shared_scans.count(), 1);
    assert_eq!(unrelated_scans.count(), 1);
    assert!(report.all_succeeded());
    Ok(())
}

#[test]
fn write_all_disabled_cache_mode_uses_baseline_path() -> TestResult {
    let mut session = connected_session()?;
    let source_scans = add_markers(&session, "big_source", "shared")?;
    let big = alias_from_sql(&mut session, "big", BIG_SQL)?;
    let west = table_from_sql(&mut session, WEST_SQL)?;
    let big_output =
        execute_output_request(big, "big_output", "big_orders", LoadMode::AppendExisting)?;
    let west_output =
        execute_output_request(west, "west_output", "west_orders", LoadMode::AppendExisting)?;
    let mut writer = FakeWriter::default();

    let report = block_on(run_write_all(
        &session,
        &vec![big_output, west_output],
        WriteAllOptions::new().with_cache_mode(WriteAllCacheMode::Disabled),
        &mut writer,
    ))
    .map_err(failure)?;

    let calls = &writer.calls;
    assert_eq!(calls.len(), 2);
    assert_eq!(calls[0].rows, 2);
    assert_eq!(calls[1].rows, 1);
    assert_eq!(source_scans.count(), 2);
    assert!(report.all_succeeded());
    assert!(report.cache() == &WriteAllCacheReport::Disabled);
    Ok(())
}

#[test]
fn write_all_auto_restores_cache_alias_after_output_failure() -> TestResult {
    let mut session = connected_session()?;
    let source_scans = add_markers(&session, "big_source", "shared")?;
    let big = alias_from_sql(&mut session, "big", BIG_SQL)?;
    let west = table_from_sql(&mut session, WEST_SQL)?;
    let east = table_from_sql(&mut session, EAST_SQL)?;
    let big_output = execute_output_request(
        big.clone(),
        "big_output",
        "big_orders",
        LoadMode::AppendExisting,
    )?;
    let west_output =
        execute_output_request(west, "west_output", "west_orders", LoadMode::AppendExisting)?;
    let east_output =
        execute_output_request(east, "east_output", "east_orders", LoadMode::AppendExisting)?;
    let mut writer = FakeWriter::failing_on("west_output");

    let report = write_all_with_writer(
        &session,
        vec![big_output, west_output, east_output],
        &mut writer,
    )
    .map_err(failure)?;

    let calls = &writer.calls;
    assert_eq!(calls.len(), 2);
    assert_eq!(calls[0].output_name, "big_output");
    assert_eq!(calls[0].rows, 2);
    assert_eq!(calls[1].output_name, "west_output");
    assert_eq!(calls[1].rows, 1);
    assert_eq!(source_scans.count(), 1);
    assert_eq!(report.succeeded_count(), 1);
    assert_eq!(report.failed_count(), 1);
    assert_eq!(report.skipped_count(), 1);
    assert!(report.outputs()[0].is_succeeded());
    assert_eq!(report.outputs()[0].output_name(), "big_output");
    assert!(report.outputs()[1].is_failed());
    assert_eq!(report.outputs()[1].output_name(), "west_output");
    assert!(report.outputs()[2].is_skipped());
    assert_eq!(report.outputs()[2].output_name(), "east_output");
    let WriteAllCacheReport::CacheAliases {
        aliases,
        skipped_candidates,
    } = report.cache()
    else {
        return Err("expected cache aliases report".into());
    };
    assert!(skipped_candidates.is_empty());
    assert_eq!(aliases.len(), 1);
    assert_eq!(aliases[0].table_id(), big.id());
    assert_eq!(aliases[0].alias(), "big");
    assert_eq!(aliases[0].output_indexes(), &[0, 1, 2]);
    assert_eq!(
        aliases[0].status(),
        WriteAllCacheAliasStatus::MaterializedAndRestored
    );

    assert_eq!(restored_rows(&session, &big)?, 2);
    assert_eq!(source_scans.count(), 2);
    Ok(())
}

#[test]
fn write_all_auto_cache_materialization_failure_prevents_output_attempts() -> TestResult {
    let mut session = connected_session()?;
    let source_scans = add_failing_markers(&session, "big_source")?;
    let big = alias_from_sql(&mut session, "big", BIG_SQL)?;
    let west = table_from_sql(&mut session, WEST_SQL)?;
    let east = table_from_sql(&mut session, EAST_SQL)?;
    let west_output =
        execute_output_request(west, "west_output", "west_orders", LoadMode::AppendExisting)?;
    let east_output =
        execute_output_request(east, "east_output", "east_orders", LoadMode::AppendExisting)?;
    let mut writer = FakeWriter::default();

    let error = write_all_with_writer(&session, vec![west_output, east_output], &mut writer);

    assert!(matches!(
        error,
        Err(DeltaFunnelError::MssqlWorkflowPlanning { message })
            if message.contains("scoped MSSQL cache alias materialize failed")
                && message.contains("big")
    ));
    assert!(writer.calls.is_empty());
    assert_eq!(source_scans.count(), 1);

    let restored_error = block_on(rows_of_table(&session, &big));
    assert!(matches!(
        &restored_error,
        Err(DeltaFunnelError::BatchPipeline { message, .. })
            if message.contains("forced scan planning failure")
    ));
    assert_eq!(source_scans.count(), 2);
    Ok(())
}

#[test]
fn write_all_auto_restores_replaced_alias_after_later_cache_materialization_failure() -> TestResult
{
    let mut session = connected_session()?;
    let big_source_scans = add_markers(&session, "big_source", "big")?;
    let names_source_scans = add_failing_markers(&session, "names_source")?;
    let big = alias_from_sql(&mut session, "big", KEYED_BIG_SQL)?;
    let names = alias_from_sql(&mut session, "names", KEYED_NAMES_SQL)?;
    let west = table_from_sql(&mut session, JOINED_WEST_SQL)?;
    let east = table_from_sql(&mut session, JOINED_EAST_SQL)?;
    let west_output =
        execute_output_request(west, "west_output", "west_orders", LoadMode::AppendExisting)?;
    let east_output =
        execute_output_request(east, "east_output", "east_orders", LoadMode::AppendExisting)?;
    let mut writer = FakeWriter::default();

    let error = write_all_with_writer(&session, vec![west_output, east_output], &mut writer);

    assert!(matches!(
        error,
        Err(DeltaFunnelError::MssqlWorkflowPlanning { message })
            if message.contains("scoped MSSQL cache alias materialize failed")
                && message.contains("names")
    ));
    assert!(writer.calls.is_empty());
    assert_eq!(big_source_scans.count(), 1);
    assert_eq!(names_source_scans.count(), 1);

    assert_eq!(restored_rows(&session, &big)?, 2);
    assert_eq!(big_source_scans.count(), 2);

    let restored_names_error = block_on(rows_of_table(&session, &names));
    assert!(matches!(
        &restored_names_error,
        Err(DeltaFunnelError::BatchPipeline { message, .. })
            if message.contains("forced scan planning failure")
    ));
    assert_eq!(names_source_scans.count(), 2);
    Ok(())
}

#[test]
fn write_all_auto_reports_dependent_stream_setup_failure_before_writer() -> TestResult {
    let mut session = connected_session()?;
    let source_scans = add_markers(&session, "big_source", "shared")?;
    let big = alias_from_sql(&mut session, "big", BIG_SQL)?;
    let west = table_from_sql(&mut session, WEST_SQL)?;
    let east = table_from_sql(&mut session, EAST_SQL)?;
    let big_output = execute_output_request(
        big.clone(),
        "big_output",
        "big_orders",
        LoadMode::AppendExisting,
    )?;
    let west_output =
        execute_output_request(west, "west_output", "west_orders", LoadMode::AppendExisting)?;
    let east_output =
        execute_output_request(east, "east_output", "east_orders", LoadMode::AppendExisting)?;
    let mut writer = FakeWriter {
        expected_schemas: vec![(
            "west_output".to_owned(),
            Schema::new(vec![Field::new("different_marker", DataType::Utf8, false)]),
        )],
        ..FakeWriter::default()
    };

    let report = write_all_with_writer(
        &session,
        vec![big_output, west_output, east_output],
        &mut writer,
    )
    .map_err(failure)?;

    let calls = &writer.calls;
    assert_eq!(calls.len(), 1);
    assert_eq!(calls[0].output_name, "big_output");
    assert_eq!(calls[0].rows, 2);
    assert_eq!(source_scans.count(), 1);
    assert_eq!(report.succeeded_count(), 1);
    assert_eq!(report.failed_count(), 1);
    assert_eq!(report.skipped_count(), 1);
    assert!(report.outputs()[0].is_succeeded());
    assert_eq!(report.outputs()[0].output_name(), "big_output");
    assert!(report.outputs()[1].is_failed());
    assert_eq!(report.outputs()[1].output_name(), "west_output");
    let MssqlOutputWriteStatus::Failed { error, .. } = &report.outputs()[1] else {
        return Err(format!("expected failed status, got {:?}", report.outputs()[1]).into());
    };
    assert!(error.contains("cached output stream setup failed for `west_output`"));
    assert!(error.contains("replanned output schema does not match"));
    assert!(report.outputs()[2].is_skipped());
    assert_eq!(report.outputs()[2].output_name(), "east_output");
    let WriteAllCacheReport::CacheAliases {
        aliases,
        skipped_candidates,
    } = report.cache()
    else {
        return Err("expected cache aliases report".into());
    };
    assert!(skipped_candidates.is_empty());
    assert_eq!(aliases.len(), 1);
    assert_eq!(aliases[0].table_id(), big.id());
    assert_eq!(aliases[0].alias(), "big");
    assert_eq!(aliases[0].output_indexes(), &[0, 1, 2]);
    assert_eq!(
        aliases[0].status(),
        WriteAllCacheAliasStatus::MaterializedAndRestored
    );

    assert_eq!(restored_rows(&session, &big)?, 2);
    assert_eq!(source_scans.count(), 2);
    Ok(())
}

#[test]
fn write_all_with_writer_skips_later_outputs_after_writer_failure() -> TestResult {
    let mut session = connected_session()?;
    let first_scans = add_markers(&session, "first_source", "first")?;
    let second_scans = add_markers(&session, "second_source", "second")?;
    let third_scans = add_markers(&session, "third_source", "third")?;
    let first = table_from_sql(
        &mut session,
        "select marker from first_source where region = 'west'",
    )?;
    let second = table_from_sql(
        &mut session,
        "select marker from second_source where region = 'west'",
    )?;
    let third = table_from_sql(
        &mut session,
        "select marker from third_source where region = 'west'",
    )?;
    let first = execute_output_request(
        first,
        "first_output",
        "first_orders",
        LoadMode::AppendExisting,
    )?;
    let second = execute_output_request(
        second,
        "second_output",
        "second_orders",
        LoadMode::AppendExisting,
    )?;
    let third = execute_output_request(
        third,
        "third_output",
        "third_orders",
        LoadMode::AppendExisting,
    )?;
    let mut writer = FakeWriter::failing_on("second_output");

    let report = write_all_with_writer(&session, vec![first, second, third], &mut writer)
        .map_err(failure)?;

    let calls = &writer.calls;
    assert_eq!(calls.len(), 2);
    assert_eq!(calls[0].output_name, "first_output");
    assert_eq!(calls[1].output_name, "second_output");
    assert_eq!(first_scans.count(), 1);
    assert_eq!(second_scans.count(), 1);
    assert_eq!(third_scans.count(), 0);
    assert_eq!(report.succeeded_count(), 1);
    assert_eq!(report.failed_count(), 1);
    assert_eq!(report.skipped_count(), 1);
    assert!(report.outputs()[0].is_succeeded());
    assert_eq!(report.outputs()[0].output_name(), "first_output");
    assert!(report.outputs()[1].is_failed());
    assert_eq!(report.outputs()[1].output_name(), "second_output");
    assert!(report.outputs()[2].is_skipped());
    assert_eq!(report.outputs()[2].output_name(), "third_output");
    Ok(())
}

#[test]
fn write_all_with_writer_reports_stream_setup_failure_before_writer() -> TestResult {
    let mut session = connected_session()?;
    let first_scans = add_markers(&session, "first_source", "first")?;
    let failing_scans = add_failing_markers(&session, "failing_source")?;
    let third_scans = add_markers(&session, "third_source", "third")?;
    let first = table_from_sql(
        &mut session,
        "select marker from first_source where region = 'west'",
    )?;
    let failing = table_from_sql(
        &mut session,
        "select marker from failing_source where region = 'west'",
    )?;
    let third = table_from_sql(
        &mut session,
        "select marker from third_source where region = 'west'",
    )?;
    let first = execute_output_request(
        first,
        "first_output",
        "first_orders",
        LoadMode::AppendExisting,
    )?;
    let failing = execute_output_request(
        failing,
        "failing_output",
        "failing_orders",
        LoadMode::AppendExisting,
    )?;
    let third = execute_output_request(
        third,
        "third_output",
        "third_orders",
        LoadMode::AppendExisting,
    )?;
    let mut writer = FakeWriter::default();

    let report = write_all_with_writer(&session, vec![first, failing, third], &mut writer)
        .map_err(failure)?;

    let calls = &writer.calls;
    assert_eq!(calls.len(), 1);
    assert_eq!(calls[0].output_name, "first_output");
    assert_eq!(first_scans.count(), 1);
    assert_eq!(failing_scans.count(), 1);
    assert_eq!(third_scans.count(), 0);
    assert_eq!(report.succeeded_count(), 1);
    assert_eq!(report.failed_count(), 1);
    assert_eq!(report.skipped_count(), 1);
    assert!(report.outputs()[0].is_succeeded());
    assert_eq!(report.outputs()[0].output_name(), "first_output");
    assert!(report.outputs()[1].is_failed());
    assert_eq!(report.outputs()[1].output_name(), "failing_output");
    assert!(report.outputs()[2].is_skipped());
    assert_eq!(report.outputs()[2].output_name(), "third_output");
    Ok(())
}

#[test]
fn write_all_rejects_duplicate_output_names_before_stream_setup() -> TestResult {
    let mut session = connected_session()?;
    let source_scans = add_markers(&session, "orders_source", "shared")?;
    let west = table_from_sql(
        &mut session,
        "select marker from orders_source where region = 'west'",
    )?;
    let east = table_from_sql(
        &mut session,
        "select marker from orders_source where region = 'east'",
    )?;
    let west = execute_output_request(
        west,
        "orders_output",
        "west_orders",
        LoadMode::AppendExisting,
    )?;
    let east = execute_output_request(
        east,
        "orders_output",
        "east_orders",
        LoadMode::AppendExisting,
    )?;

    let error = write_all_with_writer(&session, vec![west, east], &mut FakeWriter::default());

    assert!(matches!(
        error,
        Err(DeltaFunnelError::MssqlWorkflowPlanning { message })
            if message.contains("write_all output names must be unique")
                && message.contains("orders_output")
    ));
    assert_eq!(source_scans.count(), 0);
    Ok(())
}

#[test]
fn write_all_validation_errors_redact_connection_material() -> TestResult {
    let mut session = connected_session()?;
    let west = table_from_sql(&mut session, "select 1 as id")?;
    let east = table_from_sql(&mut session, "select 2 as id")?;
    let west = execute_output_request(
        west,
        "orders_output",
        "west_orders",
        LoadMode::AppendExisting,
    )?;
    let east = execute_output_request(
        east,
        "orders_output",
        "east_orders",
        LoadMode::AppendExisting,
    )?;

    let error = write_all_with_writer(&session, vec![west, east], &mut FakeWriter::default())
        .map(|_| ())
        .map_err(|error| format!("{error:?} {}", error.display_text()));

    assert!(
        matches!(error, Err(display) if display.contains("orders_output")
            && !display.contains("secret-token")
            && !display.contains("password")
            && !display.contains("server=tcp"))
    );
    Ok(())
}

#[test]
fn write_to_mssql_requires_effective_connection_before_stream_setup() -> TestResult {
    let mut session = default_session()?;
    let source_scans = add_markers(&session, "orders", "shared")?;
    let loaded = RegisteredDeltaSource {
        name: "orders".to_owned(),
        table_uri: "file:///tables/orders".to_owned(),
        snapshot_version: 1,
        schema: marker_region_schema(),
        protocol: DeltaProtocolReport {
            source_name: "orders".to_owned(),
            min_reader_version: 1,
            min_writer_version: 2,
        },
    };
    let source = session
        .delta_lake("orders", Ok(vec![loaded]))
        .map_err(failure)?;
    let request = execute_output_request(
        source,
        "orders_output",
        "orders_sink",
        LoadMode::AppendExisting,
    )?;

    let error = block_on(write_to_mssql_with_writer(
        &session,
        &request,
        &mut FakeWriter::default(),
    ));

    assert!(matches!(
        error,
        Err(DeltaFunnelError::MissingMssqlConnection { output_name })
            if output_name == "orders_output"
    ));
    assert_eq!(source_scans.count(), 0);
    Ok(())
}

#[test]
fn write_to_mssql_with_writer_hands_query_stream_to_one_output_boundary() -> TestResult {
    let mut session = connected_session()?;
    let derived = table_from_sql(&mut session, "select 1 as id union all select 2 as id")?;
    let request = execute_output_request(
        derived,
        "orders_output",
        "orders_sink",
        LoadMode::CreateAndLoad,
    )?;
    let mut writer = FakeWriter::default();

    let report = block_on(write_to_mssql_with_writer(&session, &request, &mut writer))
        .map_err(failure)?;

    assert_eq!(writer.calls.len(), 1);
    let call = writer.calls.first().ok_or("expected fake writer call")?;
    assert_eq!(call.output_name, "orders_output");
    assert_eq!(call.target_schema.as_deref(), Some("dbo"));
    assert_eq!(call.target_table, "orders_sink");
    assert_eq!(
        call.connection_source,
        MssqlConnectionSource::ContextDefault
    );
    assert_eq!(call.rows, 2);
    assert!(call.batches >= 1);
    assert_eq!(call.schema_fields, 1);
    assert_eq!(report.output_name, "orders_output");
    assert_eq!(report.rows_written, 2);
    assert_eq!(report.batches_written, call.batches);
    Ok(())
}

#[test]
fn write_to_mssql_rejects_dry_run_before_planning_or_writer() -> TestResult {
    let mut session = default_session()?;
    let derived = table_from_sql(&mut session, "select 1 as id")?;
    let request = output_request(
        derived,
        "orders_output",
        "orders_sink",
        LoadMode::AppendExisting,
    )?;
    let mut writer = FakeWriter::default();

    let error = block_on(write_to_mssql_with_writer(&session, &request, &mut writer));

    assert!(matches!(
        error,
        Err(DeltaFunnelError::MssqlWorkflowPlanning { message })
            if message.contains("RunMode::Execute")
                && message.contains("dry_run_to_mssql")
    ));
    assert!(writer.calls.is_empty());
    Ok(())
}

#[test]
fn runtime_drives_single_output_write_with_injected_writer() -> TestResult {
    let runtime = DeltaFunnelRuntime::new().map_err(failure)?;
    let mut session = connected_session()?;
    let output = runtime
        .runtime()
        .block_on(plan_table(
            &mut session,
            "select 1 as id union all select 2 as id",
        ))
        .map_err(failure)?;
    let request = execute_output_request(
        output,
        "orders_output",
        "orders_sink",
        LoadMode::CreateAndLoad,
    )?;
    let mut writer = FakeWriter::default();

    let report = runtime
        .runtime()
        .block_on(write_to_mssql_with_writer(&session, &request, &mut writer))
        .map_err(failure)?;

    assert_eq!(writer.calls.len(), 1);
    let call = writer
        .calls
        .first()
        .ok_or("expected fake runtime writer call")?;
    assert_eq!(call.output_name, "orders_output");
    assert_eq!(call.target_table, "orders_sink");
    assert_eq!(
        call.connection_source,
        MssqlConnectionSource::ContextDefault
    );
    assert_eq!(call.rows, 2);
    assert!(call.batches >= 1);
    assert_eq!(call.schema_fields, 1);
    assert_eq!(report.output_name, "orders_output");
    assert_eq!(report.rows_written, 2);
    assert_eq!(report.batches_written, call.batches);
    Ok(())
}

#[test]
fn runtime_drives_multi_output_write_with_injected_writer() -> TestResult {
    let runtime = DeltaFunnelRuntime::new().map_err(failure)?;
    let mut session = connected_session()?;
    let west = runtime
        .runtime()
        .block_on(plan_table(
            &mut session,
            "select 1 as id union all select 2 as id",
        ))
        .map_err(failure)?;
    let east = runtime
        .runtime()
        .block_on(plan_table(&mut session, "select 3 as id"))
        .map_err(failure)?;
    let west =
        execute_output_request(west, "west_output", "west_orders", LoadMode::AppendExisting)?;
    let east = execute_output_request(east, "east_output", "east_orders", LoadMode::CreateAndLoad)?;
    let mut writer = FakeWriter::default();

    let report = runtime
        .runtime()
        .block_on(run_write_all(
            &session,
            &vec![west, east],
            WriteAllOptions::default(),
            &mut writer,
        ))
        .map_err(failure)?;

    assert_eq!(report.len(), 2);
    assert!(report.all_succeeded());
    assert_eq!(report.outputs()[0].output_name(), "west_output");
    assert_eq!(report.outputs()[1].output_name(), "east_output");
    let MssqlOutputWriteStatus::Succeeded(west_report) = &report.outputs()[0] else {
        return Err(format!("expected succeeded status, got {:?}", report.outputs()[0]).into());
    };
    let MssqlOutputWriteStatus::Succeeded(east_report) = &report.outputs()[1] else {
        return Err(format!("expected succeeded status, got {:?}", report.outputs()[1]).into());
    };
    assert_eq!(west_report.rows_written, 2);
    assert_eq!(east_report.rows_written, 1);
    Ok(())
}

fn planned_caches(
    session: &DeltaFunnelSession,
    requests: &Vec<OutputWritePlan>,
) -> Result<Vec<MssqlDerivedCacheAliasPlan>, Box<dyn std::error::Error>> {
    match session.plan_mssql_output_cache(requests).decision() {
        MssqlOutputCacheDecision::CacheAliases(caches) => Ok(caches.clone()),
        MssqlOutputCacheDecision::NoCache { .. } => Err("expected cache aliases decision".into()),
    }
}

#[test]
fn cached_output_stream_factory_direct_alias_reads_active_cache() -> TestResult {
    let mut session = default_session()?;
    let source_scans = add_markers(&session, "big_source", "shared")?;
    let big = alias_from_sql(&mut session, "big", BIG_SQL)?;
    let west = table_from_sql(&mut session, WEST_SQL)?;
    let big_output = output_request(
        big.clone(),
        "big_output",
        "big_orders",
        LoadMode::AppendExisting,
    )?;
    let west_output = output_request(west, "west_output", "west_orders", LoadMode::AppendExisting)?;
    let caches = planned_caches(&session, &vec![big_output.clone(), west_output])?;
    let replacement = block_on(replace_alias(&session, &big)).map_err(failure)?;
    assert_eq!(source_scans.count(), 1);

    let rows = routed_rows(&session, &big_output, &caches).map_err(failure)?;

    assert_eq!(markers(&rows)?, vec!["shared", "shared"]);
    assert_eq!(source_scans.count(), 1);
    restore_alias(&session, Some(replacement)).map_err(failure)?;
    Ok(())
}

#[test]
fn cached_output_stream_factory_unrelated_output_uses_existing_lazy_table_path() -> TestResult {
    let mut session = default_session()?;
    let source_scans = add_markers(&session, "big_source", "shared")?;
    let big = alias_from_sql(&mut session, "big", BIG_SQL)?;
    let west = table_from_sql(&mut session, WEST_SQL)?;
    let unrelated = table_from_sql(
        &mut session,
        "select 'unrelated' as marker, 'north' as region",
    )?;
    let big_output = output_request(
        big.clone(),
        "big_output",
        "big_orders",
        LoadMode::AppendExisting,
    )?;
    let west_output = output_request(west, "west_output", "west_orders", LoadMode::AppendExisting)?;
    let unrelated_output = output_request(
        unrelated,
        "unrelated_output",
        "unrelated_orders",
        LoadMode::AppendExisting,
    )?;
    let caches = planned_caches(&session, &vec![big_output, west_output])?;
    let replacement = block_on(replace_alias(&session, &big)).map_err(failure)?;
    assert_eq!(source_scans.count(), 1);

    let rows = routed_rows(&session, &unrelated_output, &caches).map_err(failure)?;

    assert_eq!(markers(&rows)?, vec!["unrelated"]);
    assert_eq!(source_scans.count(), 1);
    restore_alias(&session, Some(replacement)).map_err(failure)?;
    Ok(())
}

#[test]
fn cached_output_stream_factory_replans_dependent_outputs_against_active_cache() -> TestResult {
    let mut session = default_session()?;
    let source_scans = add_markers(&session, "big_source", "shared")?;
    let big = alias_from_sql(&mut session, "big", BIG_SQL)?;
    let west = table_from_sql(&mut session, WEST_SQL)?;
    let east = table_from_sql(&mut session, EAST_SQL)?;
    let big_output = output_request(
        big.clone(),
        "big_output",
        "big_orders",
        LoadMode::AppendExisting,
    )?;
    let west_output = output_request(west, "west_output", "west_orders", LoadMode::AppendExisting)?;
    let east_output = output_request(east, "east_output", "east_orders", LoadMode::AppendExisting)?;
    let caches = planned_caches(
        &session,
        &vec![big_output.clone(), west_output.clone(), east_output.clone()],
    )?;
    let replacement = block_on(replace_alias(&session, &big)).map_err(failure)?;
    assert_eq!(source_scans.count(), 1);

    let big_rows = routed_rows(&session, &big_output, &caches).map_err(failure)?;
    let west_rows = routed_rows(&session, &west_output, &caches).map_err(failure)?;
    let east_rows = routed_rows(&session, &east_output, &caches).map_err(failure)?;

    assert_eq!(markers(&big_rows)?, vec!["shared", "shared"]);
    assert_eq!(markers(&west_rows)?, vec!["shared"]);
    assert_eq!(markers(&east_rows)?, vec!["shared"]);
    assert_eq!(source_scans.count(), 1);
    restore_alias(&session, Some(replacement)).map_err(failure)?;
    Ok(())
}

#[test]
fn cached_output_stream_factory_replans_dependent_output_against_multiple_active_caches()
-> TestResult {
    let mut session = default_session()?;
    let big_source_scans = add_markers(&session, "big_source", "big")?;
    let names_source_scans = add_markers(&session, "names_source", "name")?;
    let big = alias_from_sql(&mut session, "big", BIG_SQL)?;
    let names = alias_from_sql(
        &mut session,
        "names",
        "select marker, region from names_source",
    )?;
    let west = table_from_sql(
        &mut session,
        "select big.marker from big join names on big.region = names.region where big.region = 'west' and names.marker = 'name'",
    )?;
    let east = table_from_sql(
        &mut session,
        "select big.marker from big join names on big.region = names.region where big.region = 'east' and names.marker = 'name'",
    )?;
    let west_output = output_request(west, "west_output", "west_orders", LoadMode::AppendExisting)?;
    let east_output = output_request(east, "east_output", "east_orders", LoadMode::AppendExisting)?;
    let caches = planned_caches(&session, &vec![west_output.clone(), east_output])?;
    assert_eq!(caches.len(), 2);
    assert_eq!(caches[0].table_id(), big.id());
    assert_eq!(caches[1].table_id(), names.id());
    let big_replacement = block_on(replace_alias(&session, &big)).map_err(failure)?;
    let names_replacement = block_on(replace_alias(&session, &names)).map_err(failure)?;
    assert_eq!(big_source_scans.count(), 1);
    assert_eq!(names_source_scans.count(), 1);

    let rows = routed_rows(&session, &west_output, &caches).map_err(failure)?;

    assert_eq!(markers(&rows)?, vec!["big"]);
    assert_eq!(big_source_scans.count(), 1);
    assert_eq!(names_source_scans.count(), 1);
    restore_alias(&session, Some(names_replacement)).map_err(failure)?;
    restore_alias(&session, Some(big_replacement)).map_err(failure)?;
    Ok(())
}

#[test]
fn cached_output_stream_factory_rejects_replanned_schema_mismatch() -> TestResult {
    let mut session = default_session()?;
    add_markers(&session, "big_source", "shared")?;
    let big = alias_from_sql(&mut session, "big", BIG_SQL)?;
    let west = table_from_sql(&mut session, WEST_SQL)?;
    let big_output = output_request(
        big.clone(),
        "big_output",
        "big_orders",
        LoadMode::AppendExisting,
    )?;
    let west_output = output_request(
        west.clone(),
        "west_output",
        "west_orders",
        LoadMode::AppendExisting,
    )?;
    let caches = planned_caches(&session, &vec![big_output, west_output.clone()])?;
    let different = Schema::new(vec![Field::new("different_marker", DataType::Utf8, false)]);
    let replacement = block_on(replace_alias(&session, &big)).map_err(failure)?;

    let route = session
        .cached_output_stream_route(&west_output, &caches)
        .map_err(failure)?;
    let error = block_on(cached_output_rows(
        &session,
        &west,
        "west_output",
        &different,
        &route,
    ));

    assert!(matches!(
        error,
        Err(DeltaFunnelError::MssqlWorkflowPlanning { message })
            if message.contains("cached output stream setup failed for `west_output`")
                && message.contains("replanned output schema does not match")
    ));
    restore_alias(&session, Some(replacement)).map_err(failure)?;
    Ok(())
}

#[test]
fn texts_that_cannot_be_planned_again_fail_the_setup() -> TestResult {
    let mut session = default_session()?;
    add_markers(&session, "big_source", "shared")?;
    alias_from_sql(&mut session, "big", BIG_SQL)?;
    let west = table_from_sql(&mut session, WEST_SQL)?;
    let expected = Arc::clone(session.schema_for_lazy_table(&west).map_err(failure)?);

    let error = replanned_output(
        "west_output",
        expected.as_ref(),
        block_on(plan_read_only_sql(&session, "")),
    );

    assert!(matches!(
        error,
        Err(DeltaFunnelError::MssqlWorkflowPlanning { message })
            if message.contains("cached output stream setup failed for `west_output`")
    ));
    Ok(())
}

#[test]
fn cached_alias_replacement_does_not_feed_existing_downstream_derived_tables() -> TestResult {
    let mut session = default_session()?;
    session
        .context()
        .register_table("big_source", Arc::new(marker_region_table("original")?))?;
    alias_from_sql(&mut session, "big", BIG_SQL)?;
    let west = table_from_sql(&mut session, WEST_SQL)?;
    let east = table_from_sql(&mut session, EAST_SQL)?;

    let removed_big = session.context().deregister_table("big")?;
    assert!(removed_big.is_some());
    session
        .context()
        .register_table("big", Arc::new(marker_region_table("replacement")?))?;

    let direct_big = block_on(async { session.context().sql(WEST_SQL).await?.collect().await })?;
    assert_eq!(markers(&direct_big)?, vec!["replacement"]);

    let west_rows = block_on(rows_of_table(&session, &west)).map_err(failure)?;
    let east_rows = block_on(rows_of_table(&session, &east)).map_err(failure)?;

    assert_eq!(markers(&west_rows)?, vec!["original"]);
    assert_eq!(markers(&east_rows)?, vec!["original"]);
    Ok(())
}

#[test]
fn replanned_downstream_sql_uses_cached_alias_replacement() -> TestResult {
    let mut session = default_session()?;
    let source_scans = add_markers(&session, "big_source", "shared")?;
    let big = alias_from_sql(&mut session, "big", BIG_SQL)?;
    table_from_sql(&mut session, WEST_SQL)?;
    table_from_sql(&mut session, EAST_SQL)?;
    assert_eq!(source_scans.count(), 0);

    block_on(replace_alias(&session, &big)).map_err(failure)?;
    assert_eq!(source_scans.count(), 1);

    let direct_big = block_on(async { session.context().sql(WEST_SQL).await?.collect().await })?;
    assert_eq!(markers(&direct_big)?, vec!["shared"]);
    assert_eq!(source_scans.count(), 1);

    let replanned_west = table_from_sql(&mut session, WEST_SQL)?;
    let replanned_east = table_from_sql(&mut session, EAST_SQL)?;
    assert_eq!(source_scans.count(), 1);

    let west_rows = block_on(rows_of_table(&session, &replanned_west)).map_err(failure)?;
    let east_rows = block_on(rows_of_table(&session, &replanned_east)).map_err(failure)?;

    assert_eq!(markers(&west_rows)?, vec!["shared"]);
    assert_eq!(markers(&east_rows)?, vec!["shared"]);
    assert_eq!(source_scans.count(), 1);
    Ok(())
}

#[test]
fn counters_of_a_write_are_reported_for_their_source() -> TestResult {
    let mut session = connected_session()?;
    add_markers(&session, "orders", "shared")?;
    let loaded = RegisteredDeltaSource {
        name: "orders".to_owned(),
        table_uri: "file:///tables/orders".to_owned(),
        snapshot_version: 1,
        schema: marker_region_schema(),
        protocol: DeltaProtocolReport {
            source_name: "orders".to_owned(),
            min_reader_version: 1,
            min_writer_version: 2,
        },
    };
    session
        .delta_lake("orders", Ok(vec![loaded]))
        .map_err(failure)?;
    let aggregate = table_from_sql(&mut session, "select count(*) as order_count from orders")?;
    let request = execute_output_request(
        aggregate,
        "orders_output",
        "orders_sink",
        LoadMode::AppendExisting,
    )?;
    let requests = vec![request];
    let plan = session
        .plan_write_all(
            &requests,
            WriteAllOptions::new().with_cache_mode(WriteAllCacheMode::Disabled),
        )
        .map_err(failure)?;
    let mut run = WorkflowRun::new(vec!["orders_output".to_owned()]);
    run.record(Ok(MssqlWriteReport {
        output_name: "orders_output".to_owned(),
        rows_written: 1,
        batches_written: 1,
    }));
    let counters = vec![DeltaProviderReadStatsSnapshot {
        source_name: "orders".to_owned(),
        snapshot_version: 1,
        files_planned: 1,
        files_handled: 1,
        files_started: 1,
        files_completed: 1,
        batches_produced: 1,
        rows_produced: 2,
        scan_metadata_exhausted: Some(true),
    }];

    let report = session.report_write_all(&requests, &plan, run.finish(), &counters);

    assert_eq!(report.sources().len(), 1);
    let source = &report.sources()[0];
    assert_eq!(source.used_by_output_names(), &["orders_output".to_owned()]);
    assert_eq!(source.provider_read_stats(), Some(&counters[0]));
    assert_eq!(source.provider_stats_reason(), None);
    assert_eq!(source.file_count(), FileCount::exact(1));
    assert!(source.scan_metadata_exhausted());
    Ok(())
}

// A runtime that is started or dropped inside another runtime panics, and so does a nested
// `block_on`: the whole flow runs on the host's runtime only where no module has one of its own.
#[test]
fn lower_level_modules_do_not_create_hidden_tokio_runtimes() -> TestResult {
    let host = tokio::runtime::Builder::new_current_thread().build()?;
    let mut writer = FakeWriter::default();

    let flow: Result<(WriteAllReport, usize), Box<dyn std::error::Error>> = host.block_on(async {
        let mut session = connected_session()?;
        let source_scans = add_markers(&session, "big_source", "shared")?;
        let pending = plan_table(&mut session, BIG_SQL).await.map_err(failure)?;
        let big = session.register_alias("big", &pending).map_err(failure)?;
        let west = plan_table(&mut session, WEST_SQL).await.map_err(failure)?;
        let checked = request(
            west.clone(),
            "west_check",
            "west_orders",
            LoadMode::AppendExisting,
            RunMode::DryRun,
        )?;
        let dry_run = session.dry_run_to_mssql(&checked).map_err(failure)?;
        assert_eq!(dry_run.output_name(), "west_check");
        assert_eq!(source_scans.count(), 0);
        let big_output =
            execute_output_request(big, "big_output", "big_orders", LoadMode::AppendExisting)?;
        let west_output =
            execute_output_request(west, "west_output", "west_orders", LoadMode::AppendExisting)?;
        let report = run_write_all(
            &session,
            &vec![big_output, west_output],
            WriteAllOptions::default(),
            &mut writer,
        )
        .await
        .map_err(failure)?;
        assert!(tokio::runtime::Handle::try_current().is_ok());
        Ok((report, source_scans.count()))
    });

    let (report, scans) = flow?;
    assert!(report.all_succeeded());
    assert_eq!(scans, 1);
    assert_eq!(writer.calls.len(), 2);
    assert_eq!(writer.calls[0].rows, 2);
    assert_eq!(writer.calls[1].rows, 1);
    assert!(tokio::runtime::Handle::try_current().is_err());
    let session = connected_session()?;
    let planned = session
        .plan_write_all_outputs(&Vec::new())
        .map_err(failure)?;
    assert!(planned.is_empty());
    assert!(tokio::runtime::Handle::try_current().is_err());
    Ok(())
}
