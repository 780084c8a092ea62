use std::future::Future;
use std::sync::Arc;

use datafusion::arrow::array::{Int64Array, RecordBatch, StringArray};
use datafusion::arrow::datatypes::{DataType, Field, Schema};
use datafusion::datasource::MemTable;
use delta_funnel::errors::DeltaFunnelError;
use delta_funnel::handles::{
    LazyTable, LazyTableKind, MssqlOutputTarget, OutputWritePlan, RunMode,
};
use delta_funnel::options::SessionOptions;
use delta_funnel::output_plan::{ensure_execute_run_mode, ensure_unique_write_all_output_names};
use delta_funnel::registry::{DeltaProtocolReport, RegisteredDeltaSource};
use delta_funnel::report::PhaseStatus;
use delta_funnel::routes::MssqlCachedOutputStreamRoute;
use delta_funnel::session::{DeltaFunnelSession, read_only_sql_options};
use delta_funnel::source_usage::SourceUsageStatus;
use delta_funnel::target::{
    LoadMode, MssqlConnectionConfig, MssqlConnectionSource, MssqlTargetConfig, MssqlTargetTable,
};
use delta_funnel::target_plan::MssqlTargetTableState;
use delta_funnel::workflow::{
    CachedWriteRun, CachedWriteStep, MssqlOutputWriteStatus, MssqlWorkflowWriteReport,
    MssqlWriteReport, WorkflowRun,
};
use delta_funnel::write_all::{
    WriteAllCacheAliasStatus, WriteAllCacheCandidateSkipReason, WriteAllCacheMode,
    WriteAllCacheReport, WriteAllNoCacheReason, WriteAllOptions,
};

type TestResult = Result<(), Box<dyn std::error::Error>>;

fn block_on<F: Future>(future: F) -> F::Output {
    match tokio::runtime::Builder::new_current_thread().build() {
        Ok(runtime) => runtime.block_on(future),
        Err(error) => panic!("no runtime: {error}"),
    }
}

fn failure(error: DeltaFunnelError) -> String {
    error.display_text()
}

fn orders_schema() -> Arc<Schema> {
    Arc::new(Schema::new(vec![
        Field::new("id", DataType::Int64, true),
        Field::new("customer_name", DataType::Utf8, true),
    ]))
}

fn add_source(
    session: &mut DeltaFunnelSession,
    name: &str,
) -> Result<LazyTable, Box<dyn std::error::Error>> {
    let batch = RecordBatch::try_new(
        orders_schema(),
        vec![
            Arc::new(Int64Array::from(vec![1, 2])),
            Arc::new(StringArray::from(vec!["alice", "bob"])),
        ],
    )?;
    let provider = MemTable::try_new(orders_schema(), vec![vec![batch]])?;
    session.context().register_table(name, Arc::new(provider))?;
    let loaded = RegisteredDeltaSource {
        name: name.to_owned(),
        table_uri: format!("file:///tables/{name}"),
        snapshot_version: 1,
        schema: orders_schema(),
        protocol: DeltaProtocolReport {
            source_name: name.to_owned(),
            min_reader_version: 1,
            min_writer_version: 2,
        },
    };
    Ok(session.delta_lake(name, Ok(vec![loaded])).map_err(failure)?)
}

fn table_from_sql(
    session: &mut DeltaFunnelSession,
    sql: &str,
) -> Result<LazyTable, Box<dyn std::error::Error>> {
    let text = session.prepare_table_sql(sql).map_err(failure)?;
    let planned = block_on(
        session
            .context()
            .sql_with_options(&text, read_only_sql_options()),
    )
    .map_err(|error| error.to_string());
    Ok(session.table_from_sql(sql, planned).map_err(failure)?)
}

fn request(
    table: LazyTable,
    output_name: &str,
    target_table: &str,
    load_mode: LoadMode,
    run_mode: RunMode,
) -> Result<OutputWritePlan, DeltaFunnelError> {
    let target = MssqlTargetConfig::new(MssqlTargetTable::new("dbo", target_table)?)
        .with_load_mode(load_mode);
    Ok(OutputWritePlan::new(
        table,
        MssqlOutputTarget::new(output_name, target, run_mode),
    ))
}

fn output_request(
    table: LazyTable,
    output_name: &str,
    target_table: &str,
    load_mode: LoadMode,
) -> Result<OutputWritePlan, Box<dyn std::error::Error>> {
    Ok(request(table, output_name, target_table, load_mode, RunMode::DryRun).map_err(failure)?)
}

fn secret_connection() -> Result<MssqlConnectionConfig, DeltaFunnelError> {
    Ok(MssqlConnectionConfig::new(
        "server=tcp:sql.example.com;database=warehouse;user=admin;password=secret-token",
    )?
    .with_display_label("warehouse-primary"))
}

fn execute_output_request(
    table: LazyTable,
    output_name: &str,
    target_table: &str,
    load_mode: LoadMode,
) -> Result<OutputWritePlan, Box<dyn std::error::Error>> {
    Ok(request(table, output_name, target_table, load_mode, RunMode::Execute).map_err(failure)?)
}

fn connected_session() -> Result<DeltaFunnelSession, Box<dyn std::error::Error>> {
    Ok(DeltaFunnelSession::new(
        SessionOptions::new()
            .with_default_mssql_connection(secret_connection().map_err(failure)?),
    )
    .map_err(failure)?)
}

fn written(output_name: &str, rows: u64) -> Result<MssqlWriteReport, DeltaFunnelError> {
    Ok(MssqlWriteReport {
        output_name: output_name.to_owned(),
        rows_written: rows,
        batches_written: 1,
    })
}

fn planning_failure(message: &str) -> DeltaFunnelError {
    DeltaFunnelError::MssqlWorkflowPlanning {
        message: message.to_owned(),
    }
}

fn one_output_report() -> MssqlWorkflowWriteReport {
    let mut run = WorkflowRun::new(vec!["only".to_owned()]);
    run.record(written("only", 1));
    run.finish()
}

#[test]
fn write_all_options_default_to_auto_cache_mode() {
    let options = WriteAllOptions::default();

    assert_eq!(options.cache_mode(), WriteAllCacheMode::Auto);
    assert_eq!(
        WriteAllOptions::new()
            .with_cache_mode(WriteAllCacheMode::Disabled)
            .cache_mode(),
        WriteAllCacheMode::Disabled
    );
}

#[test]
fn plan_write_all_outputs_plans_valid_outputs_in_order() -> TestResult {
    let mut session = connected_session()?;
    let west = table_from_sql(&mut session, "select 1 as id")?;
    let east = table_from_sql(&mut session, "select 2 as id")?;
    let west =
        execute_output_request(west, "west_output", "west_orders", LoadMode::AppendExisting)?;
    let east = execute_output_request(east, "east_output", "east_orders", LoadMode::CreateAndLoad)?;

    let planned = session
        .plan_write_all_outputs(&vec![west, east])
        .map_err(failure)?;

    assert_eq!(planned.len(), 2);
    assert_eq!(planned[0].output_plan().output_name(), "west_output");
    assert_eq!(
        planned[0].output_plan().target_table().table(),
        "west_orders"
    );
    assert_eq!(planned[1].output_plan().output_name(), "east_output");
    assert_eq!(
        planned[1].output_plan().target_table().table(),
        "east_orders"
    );
    assert_eq!(
        planned[0].output_plan().expected_target_state(),
        MssqlTargetTableState::Exists
    );
    assert_eq!(
        planned[1].output_plan().expected_target_state(),
        MssqlTargetTableState::Absent
    );
    Ok(())
}

#[test]
fn plan_write_all_outputs_rejects_duplicate_output_names() -> TestResult {
    let mut session = connected_session()?;
    let west = table_from_sql(&mut session, "select 1 as id")?;
    let east = table_from_sql(&mut session, "select 2 as id")?;
    let west = execute_output_request(
        west,
        "orders_output",
        "west_orders",
        LoadMode::AppendExisting,
    )?;
    let east = execute_output_request(
        east,
        "orders_output",
        "east_orders",
        LoadMode::AppendExisting,
    )?;

    let error = session.plan_write_all_outputs(&vec![west, east]);

    assert!(matches!(
        error,
        Err(DeltaFunnelError::MssqlWorkflowPlanning { message })
            if message.contains("write_all output names must be unique")
                && message.contains("orders_output")
    ));
    Ok(())
}

#[test]
fn plan_write_all_outputs_rejects_missing_connection_before_execution() -> TestResult {
    let mut session = DeltaFunnelSession::new(SessionOptions::default()).map_err(failure)?;
    let west = table_from_sql(&mut session, "select 1 as id")?;
    let east = table_from_sql(&mut session, "select 2 as id")?;
    let west =
        execute_output_request(west, "west_output", "west_orders", LoadMode::AppendExisting)?;
    let east =
        execute_output_request(east, "east_output", "east_orders", LoadMode::AppendExisting)?;

    let error = session.plan_write_all_outputs(&vec![west, east]);

    assert!(matches!(
        error,
        Err(DeltaFunnelError::MissingMssqlConnection { output_name })
            if output_name == "west_output"
    ));
    Ok(())
}

#[test]
fn columns_that_cannot_be_mapped_are_a_planning_error() -> TestResult {
    let mut session = connected_session()?;
    let west = table_from_sql(&mut session, "select 1 as id")?;
    let east = table_from_sql(&mut session, "select 2 as id")?;
    let west =
        execute_output_request(west, "west_output", "west_orders", LoadMode::AppendExisting)?;
    let east = execute_output_request(east, "east_output", "east_orders", LoadMode::Replace)?
        .with_schema_refusal("column `id` has no SQL Server type");
    assert_eq!(west.schema_refusal(), None);
    assert_eq!(
        east.schema_refusal(),
        Some("column `id` has no SQL Server type")
    );

    let error = session.plan_mssql_output(&east);
    assert!(matches!(
        &error,
        Err(DeltaFunnelError::MssqlSchemaPlanning { output_name, message })
            if output_name == "east_output" && message == "column `id` has no SQL Server type"
    ));
    assert_eq!(
        error.err().map(failure),
        Some("output `east_output`: column `id` has no SQL Server type".to_owned())
    );
    assert!(matches!(
        session.plan_write_all_outputs(&vec![west, east]),
        Err(DeltaFunnelError::MssqlSchemaPlanning { output_name, .. })
            if output_name == "east_output"
    ));
    Ok(())
}

#[test]
fn plan_write_all_outputs_rejects_replace_before_execution() -> TestResult {
    let mut session = connected_session()?;
    let west = table_from_sql(&mut session, "select 1 as id")?;
    let east = table_from_sql(&mut session, "select 2 as id")?;
    let west =
        execute_output_request(west, "west_output", "west_orders", LoadMode::AppendExisting)?;
    let east = execute_output_request(east, "east_output", "east_orders", LoadMode::Replace)?;

    let error = session.plan_write_all_outputs(&vec![west, east]);

    assert!(matches!(
        error,
        Err(DeltaFunnelError::MssqlLifecyclePlanning { output_name, message })
            if output_name == "east_output"
                && message.contains("replace load mode is reserved")
    ));
    Ok(())
}

#[test]
fn plan_write_all_outputs_rejects_dry_run_before_execution() -> TestResult {
    let mut session = connected_session()?;
    let west = table_from_sql(&mut session, "select 1 as id")?;
    let west = output_request(west, "west_output", "west_orders", LoadMode::AppendExisting)?;

    let error = session.plan_write_all_outputs(&vec![west]);

    assert!(matches!(
        error,
        Err(DeltaFunnelError::MssqlWorkflowPlanning { message })
            if message.contains("write_all requires RunMode::Execute")
                && message.contains("dry_run_all_to_mssql")
    ));
    Ok(())
}

#[test]
fn single_write_rejects_dry_run_requests() -> TestResult {
    let mut session = connected_session()?;
    let table = table_from_sql(&mut session, "select 1 as id")?;
    let dry = output_request(table.clone(), "orders", "orders", LoadMode::AppendExisting)?;
    let real = execute_output_request(table, "orders", "orders", LoadMode::AppendExisting)?;

    assert!(matches!(
        session.plan_write_to_mssql(&dry),
        Err(DeltaFunnelError::MssqlWorkflowPlanning { message })
            if message.contains("write_to_mssql requires RunMode::Execute")
    ));
    assert!(ensure_execute_run_mode(RunMode::Execute).is_ok());
    let planned = session.plan_write_to_mssql(&real).map_err(failure)?;
    assert_eq!(
        planned.resolved_target().connection_source(),
        MssqlConnectionSource::ContextDefault
    );
    assert_eq!(planned.phase_timings().len(), 1);
    assert_eq!(planned.phase_timings()[0].phase_name(), "sql_target_planning");
    assert_eq!(planned.phase_timings()[0].status(), PhaseStatus::Completed);
    Ok(())
}

#[test]
fn unknown_tables_cannot_be_planned() -> TestResult {
    let session = connected_session()?;
    let unknown = LazyTable::placeholder(9, LazyTableKind::DerivedSql);
    let request = execute_output_request(unknown, "orders", "orders", LoadMode::AppendExisting)?;

    assert_eq!(
        session.plan_mssql_output(&request).err().map(failure),
        Some("lazy table `table_9` is not registered in this session".to_owned())
    );
    Ok(())
}

#[test]
fn target_connection_goes_before_the_session_default() -> TestResult {
    let mut session = connected_session()?;
    let table = table_from_sql(&mut session, "select 1 as id")?;
    let target = MssqlTargetConfig::new(MssqlTargetTable::new("dbo", "orders").map_err(failure)?)
        .with_connection(
            MssqlConnectionConfig::new("server=tcp:other;password=override-secret")
                .map_err(failure)?
                .with_display_label("warehouse-override"),
        );
    let request = OutputWritePlan::new(
        table,
        MssqlOutputTarget::new("orders", target, RunMode::Execute),
    );

    let planned = session.plan_mssql_output(&request).map_err(failure)?;

    assert_eq!(
        planned.resolved_target().connection_source(),
        MssqlConnectionSource::TargetOverride
    );
    assert_eq!(
        planned.resolved_target().connection().summary(),
        "warehouse-override"
    );
    let fields = planned.output_plan().output_schema();
    assert_eq!(fields.len(), 1);
    assert_eq!(fields[0].name(), "id");
    assert_eq!(fields[0].arrow_type(), "Int64");
    Ok(())
}

#[test]
fn distinct_names_are_accepted_in_any_number() -> TestResult {
    let table = LazyTable::placeholder(1, LazyTableKind::DerivedSql);
    let mut requests = Vec::new();
    assert!(ensure_unique_write_all_output_names(&requests).is_ok());
    for name in ["a", "b", "A"] {
        requests.push(output_request(
            table.clone(),
            name,
            "t",
            LoadMode::AppendExisting,
        )?);
    }
    assert!(ensure_unique_write_all_output_names(&requests).is_ok());
    requests.push(output_request(
        table.clone(),
        "b",
        "t",
        LoadMode::AppendExisting,
    )?);
    requests.push(output_request(table, "a", "t", LoadMode::AppendExisting)?);
    assert_eq!(
        ensure_unique_write_all_output_names(&requests)
            .err()
            .map(failure),
        Some("write_all output names must be unique; duplicate output name `b`".to_owned())
    );
    Ok(())
}

#[test]
fn outputs_after_a_failed_one_are_skipped() {
    let mut run = WorkflowRun::new(vec![
        "first_output".to_owned(),
        "second_output".to_owned(),
        "third_output".to_owned(),
    ]);

    assert_eq!(run.next_output(), Some(0));
    run.record(written("first_output", 1));
    assert_eq!(run.next_output(), Some(1));
    run.record(Err(planning_failure(
        "fake workflow writer failed for `second_output`",
    )));
    assert_eq!(run.next_output(), None);
    let report = run.finish();

    assert_eq!(report.len(), 3);
    assert_eq!(report.succeeded_count(), 1);
    assert_eq!(report.failed_count(), 1);
    assert_eq!(report.skipped_count(), 1);
    assert!(!report.all_succeeded());
    assert!(report.outputs()[0].is_succeeded());
    assert_eq!(report.outputs()[0].output_name(), "first_output");
    assert!(report.outputs()[1].is_failed());
    assert_eq!(report.outputs()[1].output_name(), "second_output");
    assert!(matches!(
        &report.outputs()[1],
        MssqlOutputWriteStatus::Failed { error, .. }
            if error == "fake workflow writer failed for `second_output`"
    ));
    assert!(report.outputs()[2].is_skipped());
    assert_eq!(report.outputs()[2].output_name(), "third_output");
}

#[test]
fn workflow_without_failures_writes_everything() {
    let mut run = WorkflowRun::new(vec!["west".to_owned(), "east".to_owned()]);
    run.record(written("west", 2));
    run.record(written("east", 3));
    assert_eq!(run.next_output(), None);
    let report = run.finish();

    assert!(report.all_succeeded());
    assert_eq!(report.succeeded_count(), 2);
    assert!(WorkflowRun::new(Vec::new()).finish().all_succeeded());
}

#[test]
fn cached_write_replaces_writes_and_restores_in_reverse() {
    let mut run = CachedWriteRun::new(2);

    assert_eq!(run.next_step(), CachedWriteStep::ReplaceAlias(0));
    run.alias_replaced(Ok(()));
    assert_eq!(run.next_step(), CachedWriteStep::ReplaceAlias(1));
    run.alias_replaced(Ok(()));
    assert_eq!(run.next_step(), CachedWriteStep::WriteOutputs);
    run.outputs_written(Ok(one_output_report()));
    assert_eq!(run.next_step(), CachedWriteStep::RestoreAlias(1));
    run.alias_restored(Ok(()));
    assert_eq!(run.next_step(), CachedWriteStep::RestoreAlias(0));
    run.alias_restored(Ok(()));
    assert_eq!(run.next_step(), CachedWriteStep::Finished);
    assert!(run.finish().is_ok_and(|report| report.all_succeeded()));
}

#[test]
fn failed_replacement_restores_what_was_replaced() {
    let mut run = CachedWriteRun::new(2);
    run.alias_replaced(Ok(()));
    run.alias_replaced(Err(planning_failure(
        "scoped MSSQL cache alias materialize failed for `names`: forced",
    )));

    assert_eq!(run.next_step(), CachedWriteStep::RestoreAlias(0));
    run.alias_restored(Ok(()));
    assert_eq!(run.next_step(), CachedWriteStep::Finished);
    assert_eq!(
        run.finish().err().map(failure),
        Some("scoped MSSQL cache alias materialize failed for `names`: forced".to_owned())
    );
}

#[test]
fn failed_first_replacement_ends_the_run() {
    let mut run = CachedWriteRun::new(1);
    run.alias_replaced(Err(planning_failure("materialize failed")));

    assert_eq!(run.next_step(), CachedWriteStep::Finished);
    assert!(run.finish().is_err());
}

#[test]
fn restore_failures_are_reported_with_the_failed_write() {
    let mut run = CachedWriteRun::new(2);
    run.alias_replaced(Ok(()));
    run.alias_replaced(Ok(()));
    run.outputs_written(Err(planning_failure("simulated cached workflow failure")));
    run.alias_restored(Err(planning_failure("original provider was already restored")));
    assert_eq!(run.next_step(), CachedWriteStep::RestoreAlias(0));
    run.alias_restored(Err(planning_failure("second")));
    let message = run.finish().err().map(failure);
    assert_eq!(
        message,
        Some(
            "write_all auto cache failed: simulated cached workflow failure; \
             also failed to restore cache aliases: original provider was already restored"
                .to_owned()
        )
    );

    let mut run = CachedWriteRun::new(1);
    run.alias_replaced(Ok(()));
    run.outputs_written(Ok(one_output_report()));
    run.alias_restored(Err(planning_failure("restore failed")));
    assert_eq!(
        run.finish().err().map(failure),
        Some("restore failed".to_owned())
    );
}

#[test]
fn cached_jobs_take_direct_and_replanned_routes() -> TestResult {
    let mut session = connected_session()?;
    let orders = add_source(&mut session, "orders")?;
    assert_eq!(orders.id(), 0);
    let pending = table_from_sql(&mut session, "select id, customer_name from orders")?;
    let big = session.register_alias("big", &pending).map_err(failure)?;
    let west = table_from_sql(
        &mut session,
        "select id from big where customer_name = 'alice'",
    )?;
    let requests = vec![
        execute_output_request(
            big.clone(),
            "big_output",
            "big_orders",
            LoadMode::AppendExisting,
        )?,
        execute_output_request(west, "west_output", "west_orders", LoadMode::AppendExisting)?,
    ];

    let plan = session
        .plan_write_all(&requests, WriteAllOptions::default())
        .map_err(failure)?;
    let aliases = plan.cache_aliases();
    assert_eq!(aliases.len(), 1);
    let jobs = session
        .build_write_all_cached_jobs(plan.planned_outputs(), &aliases)
        .map_err(failure)?;
    assert!(matches!(
        jobs[0].route(),
        MssqlCachedOutputStreamRoute::DirectCachedAlias(_)
    ));
    assert!(matches!(
        jobs[1].route(),
        MssqlCachedOutputStreamRoute::ReplannedCachedDependency(_)
    ));
    assert_eq!(jobs[1].output_schema().fields().len(), 1);
    assert_eq!(jobs[1].resolved_target().output_name(), "west_output");
    assert_eq!(jobs[0].table(), &big);

    let mut run = WorkflowRun::new(vec!["big_output".to_owned(), "west_output".to_owned()]);
    run.record(written("big_output", 2));
    run.record(written("west_output", 1));
    let report = session.report_write_all(&requests, &plan, run.finish(), &Vec::new());

    assert!(report.all_succeeded());
    assert_eq!(report.len(), 2);
    let WriteAllCacheReport::CacheAliases {
        aliases,
        skipped_candidates,
    } = report.cache()
    else {
        return Err("expected cache aliases report".into());
    };
    assert!(skipped_candidates.is_empty());
    assert_eq!(aliases.len(), 1);
    assert_eq!(aliases[0].table_id(), big.id());
    assert_eq!(aliases[0].alias(), "big");
    assert_eq!(aliases[0].output_indexes(), &[0, 1]);
    assert_eq!(
        aliases[0].status(),
        WriteAllCacheAliasStatus::MaterializedAndRestored
    );
    assert_eq!(report.sources().len(), 1);
    assert_eq!(report.sources()[0].usage_status(), SourceUsageStatus::Used);
    assert_eq!(
        report.sources()[0].used_by_output_names(),
        &["big_output".to_owned(), "west_output".to_owned()]
    );
    Ok(())
}

#[test]
fn disabled_caches_leave_every_route_ordinary() -> TestResult {
    let mut session = connected_session()?;
    add_source(&mut session, "orders")?;
    let pending = table_from_sql(&mut session, "select id from orders")?;
    let big = session.register_alias("big", &pending).map_err(failure)?;
    let west = table_from_sql(&mut session, "select id from big")?;
    let requests = vec![
        execute_output_request(big, "big_output", "big_orders", LoadMode::AppendExisting)?,
        execute_output_request(west, "west_output", "west_orders", LoadMode::AppendExisting)?,
    ];

    let options = WriteAllOptions::new().with_cache_mode(WriteAllCacheMode::Disabled);
    let plan = session.plan_write_all(&requests, options).map_err(failure)?;

    assert!(plan.cache_aliases().is_empty());
    let jobs = session
        .build_write_all_baseline_jobs(plan.planned_outputs())
        .map_err(failure)?;
    for job in &jobs {
        assert!(matches!(
            job.route(),
            MssqlCachedOutputStreamRoute::UncachedLazyTable
        ));
    }
    let report = session.report_write_all(
        &requests,
        &plan,
        WorkflowRun::new(vec!["big_output".to_owned(), "west_output".to_owned()]).finish(),
        &Vec::new(),
    );
    assert!(report.cache() == &WriteAllCacheReport::Disabled);
    assert_eq!(report.skipped_count(), 2);
    Ok(())
}

#[test]
fn unshared_aliases_are_reported_as_skipped() -> TestResult {
    let mut session = connected_session()?;
    let west = table_from_sql(&mut session, "select 1 as id")?;
    let east = table_from_sql(&mut session, "select 2 as id")?;
    let lone = table_from_sql(&mut session, "select 3 as id")?;
    let alias = session.register_alias("lone", &lone).map_err(failure)?;
    let requests = vec![
        execute_output_request(west, "west_output", "west_orders", LoadMode::AppendExisting)?,
        execute_output_request(east, "east_output", "east_orders", LoadMode::AppendExisting)?,
    ];

    let plan = session
        .plan_write_all(&requests, WriteAllOptions::new())
        .map_err(failure)?;

    assert!(plan.cache_aliases().is_empty());
    let report = session.report_write_all(
        &requests,
        &plan,
        WorkflowRun::new(vec!["west_output".to_owned(), "east_output".to_owned()]).finish(),
        &Vec::new(),
    );
    let WriteAllCacheReport::NoCache {
        reason,
        skipped_candidates,
    } = report.cache()
    else {
        return Err("expected no cache".into());
    };
    assert_eq!(
        *reason,
        WriteAllNoCacheReason::NoSharedRegisteredDerivedAlias
    );
    assert_eq!(skipped_candidates.len(), 1);
    assert_eq!(skipped_candidates[0].table_id(), alias.id());
    assert_eq!(
        skipped_candidates[0].reason(),
        WriteAllCacheCandidateSkipReason::NotShared { output_count: 0 }
    );
    Ok(())
}

#[test]
fn duplicate_names_stop_the_plan_of_a_call() -> TestResult {
    let mut session = connected_session()?;
    let west = table_from_sql(&mut session, "select 1 as id")?;
    let requests = vec![
        execute_output_request(west.clone(), "same", "a", LoadMode::AppendExisting)?,
        execute_output_request(west, "same", "b", LoadMode::AppendExisting)?,
    ];

    assert!(matches!(
        session.plan_write_all(&requests, WriteAllOptions::default()),
        Err(DeltaFunnelError::MssqlWorkflowPlanning { message })
            if message.contains("write_all output names must be unique")
    ));
    Ok(())
}
