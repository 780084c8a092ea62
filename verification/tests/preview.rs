use std::any::Any;
use std::future::Future;
use std::pin::Pin;
use std::sync::Arc;
use std::sync::atomic::AtomicUsize;

use datafusion::arrow::array::{Int64Array, RecordBatch, StringArray};
use datafusion::arrow::datatypes::{DataType, Field, Schema, SchemaRef};
use datafusion::catalog::Session;
use datafusion::datasource::{MemTable, TableProvider};
use datafusion::error::DataFusionError;
use datafusion::logical_expr::{Expr, TableType, Volatility, create_udf};
use datafusion::physical_plan::{ExecutionPlan, collect};
use datafusion::prelude::DataFrame;
use delta_funnel::clock::OperationClock;
use delta_funnel::engine::{ColumnType, PreviewBatch};
use delta_funnel::errors::{DeltaFunnelError, PreviewFailureContext};
use delta_funnel::execution::{ProgressEvent, ProgressOperation, ProgressPhase};
use delta_funnel::handles::{
    LazyTable, LazyTableKind, PREVIEW_PHASE_COUNT, PreviewOptions, TablePreview,
    preview_phase_name,
};
use delta_funnel::html::{
    PreviewColumn, is_numeric_type, preview_batches_to_html, preview_rows_to_html,
    push_html_escaped,
};
use delta_funnel::options::SessionOptions;
use delta_funnel::preview::preview_phase_display_name;
use delta_funnel::preview_run::{
    PreviewFormatting, PreviewPlanning, PreviewStage, emit_preview_phase, preview_finished_event,
    preview_started_event, register_preview_execution_profile,
};
use delta_funnel::report::{
    ExecutionProfileMode, PhaseStatus, QueryExecutionOutcome, QueryExecutionProfile,
    QueryExecutionScope, QueryOperatorProfile, ReportReasonCode,
};
use delta_funnel::runtime::DeltaFunnelRuntime;
use delta_funnel::session::{
    DeltaFunnelSession, LazyTableRead, read_only_sql_options, registered_read,
};
use delta_funnel::timeline::{TimelineSpanStatus, TimelineSpanTimeSemantics};

type TestResult = Result<(), Box<dyn std::error::Error>>;

type ScanResult = Result<Arc<dyn ExecutionPlan>, DataFusionError>;

fn block_on<F: Future>(future: F) -> F::Output {
    match tokio::runtime::Builder::new_current_thread().build() {
        Ok(runtime) => runtime.block_on(future),
        Err(error) => panic!("no runtime: {error}"),
    }
}

fn failure(error: DeltaFunnelError) -> String {
    error.display_text()
}

fn table_from_sql(
    session: &mut DeltaFunnelSession,
    sql: &str,
) -> Result<LazyTable, DeltaFunnelError> {
    let text = session.prepare_table_sql(sql)?;
    let planned = block_on(
        session
            .context()
            .sql_with_options(&text, read_only_sql_options()),
    )
    .map_err(|error| error.to_string());
    session.table_from_sql(sql, planned)
}

#[derive(Debug, Clone, Default)]
struct Scans(Arc<AtomicUsize>);

impl Scans {
    fn add_one(&self) {
        self.0.fetch_add(1, std::sync::atomic::Ordering::SeqCst);
    }

    fn count(&self) -> usize {
        self.0.load(std::sync::atomic::Ordering::SeqCst)
    }
}

fn marker_region_schema() -> SchemaRef {
    Arc::new(Schema::new(vec![
        Field::new("marker", DataType::Utf8, false),
        Field::new("region", DataType::Utf8, false),
    ]))
}

fn marker_region_table(marker: &str) -> Result<MemTable, Box<dyn std::error::Error>> {
    let batch = RecordBatch::try_new(
        marker_region_schema(),
        vec![
            Arc::new(StringArray::from(vec![marker, marker])),
            Arc::new(StringArray::from(vec!["west", "east"])),
        ],
    )?;
    Ok(MemTable::try_new(marker_region_schema(), vec![vec![batch]])?)
}

#[derive(Debug)]
struct MarkerProvider {
    rows: Option<MemTable>,
    scans: Scans,
}

impl TableProvider for MarkerProvider {
    fn as_any(&self) -> &dyn Any {
        self
    }

    fn schema(&self) -> SchemaRef {
        marker_region_schema()
    }

    fn table_type(&self) -> TableType {
        TableType::Base
    }

    fn scan<'life0, 'life1, 'life2, 'life3, 'async_trait>(
        &'life0 self,
        state: &'life1 dyn Session,
        projection: Option<&'life2 Vec<usize>>,
        filters: &'life3 [Expr],
        limit: Option<usize>,
    ) -> Pin<Box<dyn Future<Output = ScanResult> + Send + 'async_trait>>
    where
        'life0: 'async_trait,
        'life1: 'async_trait,
        'life2: 'async_trait,
        'life3: 'async_trait,
        Self: 'async_trait,
    {
        self.scans.add_one();
        match &self.rows {
            Some(rows) => rows.scan(state, projection, filters, limit),
            None => Box::pin(async {
                Err(DataFusionError::Plan(
                    "forced scan planning failure".to_owned(),
                ))
            }),
        }
    }
}

fn add_markers(
    session: &DeltaFunnelSession,
    name: &str,
    marker: &str,
) -> Result<Scans, Box<dyn std::error::Error>> {
    let scans = Scans::default();
    session.context().register_table(
        name,
        Arc::new(MarkerProvider {
            rows: Some(marker_region_table(marker)?),
            scans: scans.clone(),
        }),
    )?;
    Ok(scans)
}

fn add_failing_markers(
    session: &DeltaFunnelSession,
    name: &str,
) -> Result<Scans, Box<dyn std::error::Error>> {
    let scans = Scans::default();
    session.context().register_table(
        name,
        Arc::new(MarkerProvider {
            rows: None,
            scans: scans.clone(),
        }),
    )?;
    Ok(scans)
}

fn operators_of(plan: &Arc<dyn ExecutionPlan>, found: &mut Vec<QueryOperatorProfile>) {
    found.push(QueryOperatorProfile::new(plan.name().to_owned(), 0, 0));
    for child in plan.children() {
        operators_of(child, found);
    }
}

async fn planned_dataframe(
    session: &DeltaFunnelSession,
    table: &LazyTable,
) -> Result<DataFrame, DeltaFunnelError> {
    match session.dataframe_for_lazy_table(table)? {
        LazyTableRead::CatalogTable(name) => registered_read(
            session
                .context()
                .table(name.as_str())
                .await
                .map_err(|error| error.to_string()),
        ),
        LazyTableRead::Planned(dataframe) => Ok(dataframe),
    }
}

async fn run_preview(
    session: &DeltaFunnelSession,
    table: &LazyTable,
    options: PreviewOptions,
    events: &mut Vec<ProgressEvent>,
) -> Result<TablePreview, DeltaFunnelError> {
    let clock = OperationClock::start();
    let planning = PreviewPlanning::start(options, clock.now_micros());
    events.extend(emit_preview_phase(planning.stage()));
    let planned = planned_dataframe(session, table).await;
    let (physical, dataframe) = planning.dataframe_planned(planned, clock.now_micros())?;
    events.extend(emit_preview_phase(physical.stage()));
    let (created, plan) = match dataframe.create_physical_plan().await {
        Ok(plan) => (Ok(()), Some(plan)),
        Err(error) => (Err(error.to_string()), None),
    };
    let setup = physical.physical_plan_created(created, clock.now_micros())?;
    events.extend(emit_preview_phase(setup.stage()));
    let collecting = setup.stream_ready(Ok(()), Vec::new(), clock.now_micros())?;
    events.extend(emit_preview_phase(collecting.stage()));
    let (rows, operators) = match plan {
        Some(plan) => {
            let rows = collect(Arc::clone(&plan), session.context().task_ctx()).await;
            let mut operators = Vec::new();
            operators_of(&plan, &mut operators);
            (rows, operators)
        }
        None => (Ok(Vec::new()), Vec::new()),
    };
    let rows = match rows {
        Ok(rows) => Ok(rows.into_iter().map(PreviewBatch).collect()),
        Err(error) => Err(DeltaFunnelError::Config {
            message: error.to_string(),
        }),
    };
    let formatting = collecting.collected(rows, operators, clock.now_micros())?;
    events.extend(emit_preview_phase(formatting.stage()));
    formatting.format_preview_result(&clock)
}

fn preview_table(
    session: &DeltaFunnelSession,
    table: &LazyTable,
    options: PreviewOptions,
) -> Result<TablePreview, DeltaFunnelError> {
    block_on(run_preview(session, table, options, &mut Vec::new()))
}

fn preview_table_with_progress(
    session: &DeltaFunnelSession,
    table: &LazyTable,
    options: PreviewOptions,
    events: &mut Vec<ProgressEvent>,
) -> Result<TablePreview, DeltaFunnelError> {
    events.push(preview_started_event());
    let result = block_on(run_preview(session, table, options, events));
    events.push(preview_finished_event(&result));
    result
}

fn successful_preview_profile() -> QueryExecutionProfile {
    QueryExecutionProfile::preview(
        QueryExecutionOutcome::Success,
        3,
        vec![QueryOperatorProfile::new("GlobalLimitExec".to_owned(), 1, 2)],
    )
}

fn formatting_with_profile(
    profile: &QueryExecutionProfile,
) -> Result<PreviewFormatting, Box<dyn std::error::Error>> {
    let session = DeltaFunnelSession::new(SessionOptions::default()).map_err(failure)?;
    let planned = block_on(session.context().sql("select 1 as id"))?;
    let options =
        PreviewOptions::new(3).with_execution_profile_mode(ExecutionProfileMode::Detailed);
    let planning = PreviewPlanning::start(options, 10);
    let (physical, _) = planning
        .dataframe_planned(Ok(planned), 20)
        .map_err(failure)?;
    let setup = physical.physical_plan_created(Ok(()), 30).map_err(failure)?;
    let collecting = setup.stream_ready(Ok(()), Vec::new(), 40).map_err(failure)?;
    Ok(collecting
        .collected(Ok(Vec::new()), profile.operators().clone(), 50)
        .map_err(failure)?)
}

fn preview_failure_context(
    error: &DeltaFunnelError,
) -> Result<&PreviewFailureContext, Box<dyn std::error::Error>> {
    match error {
        DeltaFunnelError::PreviewFailed { context, .. } => Ok(context),
        _ => Err("expected a preview failure".into()),
    }
}

fn assert_preview_failure_context(
    context: &PreviewFailureContext,
    failed_phase: &str,
) -> TestResult {
    let phases: Vec<&str> = (0..PREVIEW_PHASE_COUNT).map(preview_phase_name).collect();
    let failed_index = phases
        .iter()
        .position(|phase| *phase == failed_phase)
        .ok_or("unknown preview failure phase")?;

    assert_eq!(context.failed_phase(), failed_phase);
    assert_eq!(context.phase_timings().len(), phases.len());
    for (index, timing) in context.phase_timings().iter().enumerate() {
        assert_eq!(timing.phase_name(), phases[index]);
        let expected_status = if index < failed_index {
            PhaseStatus::completed()
        } else if index == failed_index || index == phases.len() - 1 {
            PhaseStatus::failed()
        } else {
            PhaseStatus::not_started(ReportReasonCode::PriorFailure)
        };
        assert_eq!(timing.status(), expected_status);
        assert_eq!(
            timing.elapsed_micros().is_some(),
            !expected_status.is_not_started()
        );
    }
    let timeline = context.operation_timeline();
    assert_eq!(timeline.status(), TimelineSpanStatus::Failed);
    assert_eq!(
        Some(timeline.total_duration_micros()),
        context
            .phase_timings()
            .last()
            .and_then(|timing| timing.elapsed_micros())
    );
    Ok(())
}

#[test]
fn preview_table_returns_limited_formatted_rows() -> TestResult {
    let mut session = DeltaFunnelSession::new(SessionOptions::default()).map_err(failure)?;
    let table = table_from_sql(
        &mut session,
        "select 1 as id union all select 2 as id order by id",
    )
    .map_err(failure)?;

    let preview = preview_table(&session, &table, PreviewOptions::new(1)).map_err(failure)?;

    assert!(preview.text().contains("| id |"));
    assert!(preview.text().lines().any(|line| line.contains("| 1  |")));
    assert!(!preview.text().lines().any(|line| line.contains("| 2  |")));
    assert!(preview.html().contains("class=\"deltafunnel-preview\""));
    assert!(
        preview
            .html()
            .contains("<th class=\"df-num\"><span>id</span>")
    );
    assert!(preview.html().contains("<td class=\"df-num\">1</td>"));
    assert!(!preview.html().contains("<td class=\"df-num\">2</td>"));
    let phases: Vec<&str> = (0..PREVIEW_PHASE_COUNT).map(preview_phase_name).collect();
    assert_eq!(
        preview
            .phase_timings()
            .iter()
            .map(|timing| timing.phase_name())
            .collect::<Vec<_>>(),
        phases
    );
    assert!(preview.phase_timings().iter().all(|timing| {
        timing.status() == PhaseStatus::completed() && timing.elapsed_micros().is_some()
    }));
    assert_eq!(preview.execution_profile(), None);
    let timeline = preview
        .operation_timeline()
        .ok_or("expected preview operation timeline")?;
    assert_eq!(timeline.status(), TimelineSpanStatus::Completed);
    assert_eq!(timeline.spans().len(), phases.len() - 1);
    assert!(timeline.spans().iter().all(|span| {
        span.time_semantics() == TimelineSpanTimeSemantics::WallClock
            && span
                .start_offset_micros()
                .saturating_add(span.duration_micros())
                <= timeline.total_duration_micros()
    }));
    Ok(())
}

#[test]
fn preview_unknown_table_returns_dataframe_failure_context() -> TestResult {
    let session = DeltaFunnelSession::new(SessionOptions::default()).map_err(failure)?;

    let result = preview_table(
        &session,
        &LazyTable::placeholder(42, LazyTableKind::DerivedSql),
        PreviewOptions::new(1).with_execution_profile_mode(ExecutionProfileMode::Detailed),
    );
    let error = match result {
        Ok(_) => return Err("expected preview failure".into()),
        Err(error) => error,
    };

    let context = preview_failure_context(&error)?;
    assert_preview_failure_context(context, "preview_dataframe_planning")?;
    assert_eq!(context.execution_profile(), None);
    let DeltaFunnelError::PreviewFailed { source, .. } = &error else {
        return Err("expected a preview failure".into());
    };
    assert!(matches!(
        **source,
        DeltaFunnelError::MssqlWorkflowPlanning { .. }
    ));
    assert!(
        error
            .display_text()
            .starts_with("preview_dataframe_planning failed: ")
    );
    Ok(())
}

#[test]
fn preview_text_failure_retains_the_completed_execution_profile() -> TestResult {
    let expected_profile = successful_preview_profile();

    let result = formatting_with_profile(&expected_profile)?
        .text_formatted(Err("text failed".to_owned()), 60);
    let error = match result {
        Ok(_) => return Err("expected text formatting failure".into()),
        Err(error) => error,
    };
    let context = preview_failure_context(&error)?;

    assert_preview_failure_context(context, "preview_format_text")?;
    assert_eq!(context.execution_profile(), Some(&expected_profile));
    assert_eq!(expected_profile.outcome(), QueryExecutionOutcome::Success);
    assert!(!expected_profile.partial());
    Ok(())
}

#[test]
fn preview_html_failure_retains_the_completed_execution_profile() -> TestResult {
    let expected_profile = successful_preview_profile();

    let result = formatting_with_profile(&expected_profile)?
        .text_formatted(Ok("text".to_owned()), 60)
        .map_err(failure)?
        .html_formatted(Err("html failed".to_owned()), 70);
    let error = match result {
        Ok(_) => return Err("expected HTML formatting failure".into()),
        Err(error) => error,
    };
    let context = preview_failure_context(&error)?;

    assert_preview_failure_context(context, "preview_format_html")?;
    assert_eq!(context.execution_profile(), Some(&expected_profile));
    assert_eq!(expected_profile.outcome(), QueryExecutionOutcome::Success);
    assert!(!expected_profile.partial());
    assert_eq!(context.operation_timeline().total_duration_micros(), 70);
    assert_eq!(
        context.phase_timings()[4].elapsed_micros(),
        Some(10),
        "text formatting ran from 50 to 60"
    );
    Ok(())
}

#[test]
fn every_phase_failure_accounts_for_all_phases() -> TestResult {
    let session = DeltaFunnelSession::new(SessionOptions::default()).map_err(failure)?;
    let planned = || block_on(session.context().sql("select 1 as id"));
    let options =
        PreviewOptions::new(1).with_execution_profile_mode(ExecutionProfileMode::Detailed);
    let start = || PreviewPlanning::start(options, 0);

    let (physical, _) = start()
        .dataframe_planned(Ok(planned()?), 1)
        .map_err(failure)?;
    let error = match physical.physical_plan_created(Err("no plan".to_owned()), 2) {
        Ok(_) => return Err("expected a failure".into()),
        Err(error) => error,
    };
    assert_preview_failure_context(preview_failure_context(&error)?, "preview_physical_planning")?;
    assert!(error.display_text().contains("preview_collect: no plan"));

    let (physical, _) = start()
        .dataframe_planned(Ok(planned()?), 1)
        .map_err(failure)?;
    let setup = physical.physical_plan_created(Ok(()), 2).map_err(failure)?;
    let error = match setup.stream_ready(Err("no stream".to_owned()), Vec::new(), 3) {
        Ok(_) => return Err("expected a failure".into()),
        Err(error) => error,
    };
    let context = preview_failure_context(&error)?;
    assert_preview_failure_context(context, "preview_stream_setup")?;
    assert!(context.execution_profile().is_some_and(|profile| profile.partial()));

    let (physical, _) = start()
        .dataframe_planned(Ok(planned()?), 1)
        .map_err(failure)?;
    let setup = physical.physical_plan_created(Ok(()), 2).map_err(failure)?;
    let collecting = setup.stream_ready(Ok(()), Vec::new(), 3).map_err(failure)?;
    let cause = DeltaFunnelError::Config {
        message: "row failure".to_owned(),
    };
    let error = match collecting.collected(Err(cause), Vec::new(), 4) {
        Ok(_) => return Err("expected a failure".into()),
        Err(error) => error,
    };
    let context = preview_failure_context(&error)?;
    assert_preview_failure_context(context, "preview_execute_collect")?;
    assert_eq!(
        context.execution_profile(),
        Some(&QueryExecutionProfile::preview(
            QueryExecutionOutcome::Error,
            1,
            Vec::new()
        ))
    );
    assert_eq!(
        error.display_text(),
        "preview_execute_collect failed: row failure"
    );
    Ok(())
}

#[test]
fn preview_table_reads_registered_derived_alias() -> TestResult {
    let mut session = DeltaFunnelSession::new(SessionOptions::default()).map_err(failure)?;
    let pending = table_from_sql(&mut session, "select 'west' as region").map_err(failure)?;
    let alias = session.register_alias("regions", &pending).map_err(failure)?;

    let preview = preview_table(&session, &alias, PreviewOptions::new(20)).map_err(failure)?;

    assert!(preview.text().contains("| region |"));
    assert!(
        preview
            .text()
            .lines()
            .any(|line| line.contains("| west   |"))
    );
    assert!(preview.html().contains("<td>west</td>"));
    Ok(())
}

#[test]
fn preview_table_html_escapes_cell_values() -> TestResult {
    let mut session = DeltaFunnelSession::new(SessionOptions::default()).map_err(failure)?;
    let table = table_from_sql(&mut session, "select '<tag>' as marker").map_err(failure)?;

    let preview = preview_table(&session, &table, PreviewOptions::new(20)).map_err(failure)?;

    assert!(preview.html().contains("&lt;tag&gt;"));
    assert!(!preview.html().contains("<td><tag></td>"));
    Ok(())
}

#[test]
fn stages_are_announced_as_three_phases() {
    let stages = [
        PreviewStage::DataFramePlanning,
        PreviewStage::PhysicalPlanning,
        PreviewStage::StreamSetup,
        PreviewStage::ExecuteCollect,
        PreviewStage::FormatText,
        PreviewStage::FormatHtml,
    ];
    let events: Vec<ProgressEvent> = stages.into_iter().filter_map(emit_preview_phase).collect();
    assert_eq!(
        events,
        vec![
            ProgressEvent::PhaseChanged {
                phase: ProgressPhase::PreparingPreview
            },
            ProgressEvent::PhaseChanged {
                phase: ProgressPhase::CollectingPreview
            },
            ProgressEvent::PhaseChanged {
                phase: ProgressPhase::FormattingPreview
            },
        ]
    );
    assert_eq!(
        preview_started_event(),
        ProgressEvent::Started {
            operation: ProgressOperation::PreviewTable
        }
    );
    let shown = TablePreview::from_execution(
        "text".to_owned(),
        "html".to_owned(),
        Vec::new(),
        None,
        None,
    );
    let failed = DeltaFunnelError::Config {
        message: "no rows".to_owned(),
    };
    assert_eq!(preview_finished_event(&Ok(shown)), ProgressEvent::Completed);
    assert_eq!(preview_finished_event(&Err(failed)), ProgressEvent::Failed);
}

#[test]
fn only_detailed_previews_register_a_profile() {
    let options = PreviewOptions::new(7);
    assert_eq!(register_preview_execution_profile(options), None);
    assert_eq!(
        register_preview_execution_profile(
            options.with_execution_profile_mode(ExecutionProfileMode::Detailed)
        ),
        Some((QueryExecutionScope::Preview, 7))
    );
}

#[test]
fn successful_profile_adds_operator_spans() -> TestResult {
    let preview = formatting_with_profile(&successful_preview_profile())?
        .text_formatted(Ok("text".to_owned()), 60)
        .map_err(failure)?
        .html_formatted(Ok("html".to_owned()), 70)
        .map_err(failure)?;

    let timeline = preview.operation_timeline().ok_or("expected a timeline")?;
    assert_eq!(timeline.label(), "Preview total");
    assert_eq!(timeline.spans().len(), 7);
    assert_eq!(timeline.spans()[6].name(), "GlobalLimitExec");
    assert_eq!(
        timeline.spans()[6].category(),
        "datafusion.operator.lifecycle"
    );
    assert_eq!(timeline.spans()[0].name(), "DataFrame planning");
    assert_eq!(
        timeline.spans()[0]
            .phase_name()
            .as_ref()
            .and_then(|value| value.as_str()),
        Some("preview_dataframe_planning")
    );
    assert_eq!(preview.text(), "text");
    assert_eq!(preview.html(), "html");
    Ok(())
}

#[test]
fn phases_have_names_for_people() {
    assert_eq!(
        preview_phase_display_name("preview_dataframe_planning"),
        "DataFrame planning"
    );
    assert_eq!(preview_phase_display_name("something_else"), "something_else");
}

#[test]
fn html_shows_columns_rows_and_counts() {
    let columns = vec![
        PreviewColumn {
            name: "id".to_owned(),
            type_text: "Int64".to_owned(),
            numeric: true,
        },
        PreviewColumn {
            name: "a&b".to_owned(),
            type_text: "Utf8".to_owned(),
            numeric: false,
        },
    ];
    let html = preview_rows_to_html(&columns, &vec![vec!["1".to_owned(), "<x>".to_owned()]], 1);

    assert!(html.contains("<span>a&amp;b</span>"));
    assert!(html.contains("<td class=\"df-num\">1</td>"));
    assert!(html.contains("<td>&lt;x&gt;</td>"));
    assert!(html.contains("Showing <b>1</b> rows, <b>2</b> columns."));
    let empty = preview_rows_to_html(&Vec::new(), &Vec::new(), 4);
    assert!(empty.contains("(No columns)"));
    assert!(empty.contains("Showing <b>4</b> rows, <b>0</b> columns."));
}

#[test]
fn html_of_batches_shows_nulls_and_every_batch() -> TestResult {
    let schema = Arc::new(Schema::new(vec![
        Field::new("id", DataType::Int64, true),
        Field::new("name", DataType::Utf8, true),
    ]));
    let batch = |ids: Vec<Option<i64>>, names: Vec<Option<&str>>| {
        RecordBatch::try_new(
            Arc::clone(&schema),
            vec![
                Arc::new(Int64Array::from(ids)),
                Arc::new(StringArray::from(names)),
            ],
        )
    };
    let batches = vec![
        PreviewBatch(batch(vec![Some(1), None], vec![Some("a"), Some("b")])?),
        PreviewBatch(batch(vec![Some(3)], vec![None])?),
    ];

    let html = preview_batches_to_html(&schema, &batches)?;

    assert!(html.contains("<td class=\"df-num\">null</td>"));
    assert!(html.contains("<td>null</td>"));
    assert!(html.contains("<td class=\"df-num\">3</td>"));
    assert!(html.contains("Showing <b>3</b> rows, <b>2</b> columns."));
    Ok(())
}

#[test]
fn markup_characters_are_escaped() {
    let mut html = "x".to_owned();
    push_html_escaped(&mut html, "<a href=\"b\">'&'</a>");
    assert_eq!(
        html,
        "x&lt;a href=&quot;b&quot;&gt;&#39;&amp;&#39;&lt;/a&gt;"
    );
}

#[test]
fn escaping_joins_and_comes_back() {
    let texts = ["<a>", "&lt;", "it's \"&amp;\"", "plain", "&#39;'", "&&", ""];
    let escaped = |value: &str| {
        let mut html = String::new();
        push_html_escaped(&mut html, value);
        html
    };
    for a in texts {
        for b in texts {
            let mut joined = escaped(a);
            push_html_escaped(&mut joined, b);
            assert_eq!(joined, escaped(&format!("{a}{b}")));
            assert_eq!(escaped(a) == escaped(b), a == b);
        }
        let shown = escaped(a)
            .replace("&lt;", "<")
            .replace("&gt;", ">")
            .replace("&quot;", "\"")
            .replace("&#39;", "'")
            .replace("&amp;", "&");
        assert_eq!(shown, a);
    }
}

#[test]
fn profiles_are_made_in_detailed_mode_alone() -> TestResult {
    let session = DeltaFunnelSession::new(SessionOptions::default()).map_err(failure)?;
    for (mode, limit) in [
        (ExecutionProfileMode::Disabled, 3),
        (ExecutionProfileMode::Detailed, 3),
        (ExecutionProfileMode::Detailed, 0),
    ] {
        let planned = block_on(session.context().sql("select 1 as id"))?;
        let options = PreviewOptions::new(limit).with_execution_profile_mode(mode);
        let planning = PreviewPlanning::start(options, 0);
        assert_eq!(planning.stage(), PreviewStage::DataFramePlanning);
        let (physical, _) = planning.dataframe_planned(Ok(planned), 1).map_err(failure)?;
        assert_eq!(physical.stage(), PreviewStage::PhysicalPlanning);
        let setup = physical.physical_plan_created(Ok(()), 2).map_err(failure)?;
        assert_eq!(setup.stage(), PreviewStage::StreamSetup);
        let collecting = setup.stream_ready(Ok(()), Vec::new(), 3).map_err(failure)?;
        assert_eq!(collecting.stage(), PreviewStage::ExecuteCollect);
        let operators = vec![QueryOperatorProfile::new("LimitExec".to_owned(), 0, 1)];
        let formatting = collecting
            .collected(Ok(Vec::new()), operators.clone(), 4)
            .map_err(failure)?;
        assert_eq!(formatting.stage(), PreviewStage::FormatText);
        let formatting = formatting
            .text_formatted(Ok("text".to_owned()), 5)
            .map_err(failure)?;
        assert_eq!(formatting.stage(), PreviewStage::FormatHtml);
        let preview = formatting
            .html_formatted(Ok("html".to_owned()), 6)
            .map_err(failure)?;
        let expected = match mode {
            ExecutionProfileMode::Disabled => None,
            ExecutionProfileMode::Detailed => Some(QueryExecutionProfile::preview(
                QueryExecutionOutcome::Success,
                u64::try_from(limit)?,
                operators,
            )),
        };
        assert_eq!(preview.execution_profile(), expected.as_ref());
    }
    Ok(())
}

#[test]
fn numbers_are_told_from_other_types() {
    let other = ColumnType { integer: false, floating: false, decimal: false };
    assert!(is_numeric_type(ColumnType { integer: true, ..other }));
    assert!(is_numeric_type(ColumnType { floating: true, ..other }));
    assert!(is_numeric_type(ColumnType { decimal: true, ..other }));
    assert!(!is_numeric_type(other));
}

#[test]
fn number_columns_are_aligned_and_others_are_not() -> TestResult {
    let aligned = |data_type: DataType| -> Result<bool, String> {
        let schema = Arc::new(Schema::new(vec![Field::new("value", data_type, true)]));
        let html = preview_batches_to_html(&schema, &Vec::new())?;
        Ok(html.contains("<th class=\"df-num\">"))
    };
    for data_type in [
        DataType::Int8,
        DataType::Int16,
        DataType::Int32,
        DataType::Int64,
        DataType::UInt8,
        DataType::UInt16,
        DataType::UInt32,
        DataType::UInt64,
        DataType::Float16,
        DataType::Float32,
        DataType::Float64,
        DataType::Decimal32(9, 2),
        DataType::Decimal64(18, 2),
        DataType::Decimal128(38, 2),
        DataType::Decimal256(76, 2),
    ] {
        assert!(aligned(data_type)?);
    }
    for data_type in [
        DataType::Null,
        DataType::Boolean,
        DataType::Utf8,
        DataType::LargeUtf8,
        DataType::Utf8View,
        DataType::Binary,
        DataType::Date32,
        DataType::Date64,
        DataType::FixedSizeBinary(4),
    ] {
        assert!(!aligned(data_type)?);
    }
    Ok(())
}

#[test]
fn preview_progress_follows_existing_preview_boundaries() -> TestResult {
    let mut session = DeltaFunnelSession::new(SessionOptions::default()).map_err(failure)?;
    let table = table_from_sql(&mut session, "select 1 as id").map_err(failure)?;
    let mut events = Vec::new();

    let preview =
        preview_table_with_progress(&session, &table, PreviewOptions::new(1), &mut events)
            .map_err(failure)?;

    assert!(preview.text().contains("| 1  |"));
    assert_eq!(
        events,
        vec![
            ProgressEvent::Started {
                operation: ProgressOperation::PreviewTable
            },
            ProgressEvent::PhaseChanged {
                phase: ProgressPhase::PreparingPreview
            },
            ProgressEvent::PhaseChanged {
                phase: ProgressPhase::CollectingPreview
            },
            ProgressEvent::PhaseChanged {
                phase: ProgressPhase::FormattingPreview
            },
            ProgressEvent::Completed,
        ]
    );
    Ok(())
}

#[test]
fn preview_progress_executes_the_bounded_plan_once() -> TestResult {
    let mut session = DeltaFunnelSession::new(SessionOptions::default()).map_err(failure)?;
    let scans = add_markers(&session, "preview_source", "observed")?;
    let udf_calls = Scans::default();
    let callback_calls = udf_calls.clone();
    session.context().register_udf(create_udf(
        "observe_preview_execution",
        vec![DataType::Utf8],
        DataType::Utf8,
        Volatility::Volatile,
        Arc::new(move |arguments| {
            callback_calls.add_one();
            Ok(arguments[0].clone())
        }),
    ));
    let table = table_from_sql(
        &mut session,
        "select observe_preview_execution(marker) as marker from preview_source",
    )
    .map_err(failure)?;

    let preview =
        preview_table_with_progress(&session, &table, PreviewOptions::new(1), &mut Vec::new())
            .map_err(failure)?;

    assert!(preview.text().contains("observed"));
    assert_eq!(scans.count(), 1);
    assert_eq!(udf_calls.count(), 1);
    Ok(())
}

#[test]
fn preview_progress_keeps_physical_planning_in_the_preparing_phase_on_failure() -> TestResult {
    let mut session = DeltaFunnelSession::new(SessionOptions::default()).map_err(failure)?;
    let scans = add_failing_markers(&session, "broken_source")?;
    let table =
        table_from_sql(&mut session, "select marker from broken_source").map_err(failure)?;
    let mut events = Vec::new();

    let result = preview_table_with_progress(
        &session,
        &table,
        PreviewOptions::new(1).with_execution_profile_mode(ExecutionProfileMode::Detailed),
        &mut events,
    );
    let error = match result {
        Ok(_) => return Err("expected physical planning failure".into()),
        Err(error) => error,
    };
    let context = preview_failure_context(&error)?;

    assert_preview_failure_context(context, "preview_physical_planning")?;
    assert_eq!(context.execution_profile(), None);
    assert_eq!(scans.count(), 1);
    assert_eq!(
        events,
        vec![
            ProgressEvent::Started {
                operation: ProgressOperation::PreviewTable
            },
            ProgressEvent::PhaseChanged {
                phase: ProgressPhase::PreparingPreview
            },
            ProgressEvent::Failed,
        ]
    );
    Ok(())
}

#[test]
fn preview_progress_stops_before_formatting_when_execution_fails() -> TestResult {
    let mut session = DeltaFunnelSession::new(SessionOptions::default()).map_err(failure)?;
    let table = table_from_sql(
        &mut session,
        "select cast(1 as bigint) / cast(0 as bigint) as value",
    )
    .map_err(failure)?;
    let mut events = Vec::new();

    let result = preview_table_with_progress(
        &session,
        &table,
        PreviewOptions::new(1).with_execution_profile_mode(ExecutionProfileMode::Detailed),
        &mut events,
    );
    let error = match result {
        Ok(_) => return Err("expected preview execution failure".into()),
        Err(error) => error,
    };
    let context = preview_failure_context(&error)?;
    let profile = context
        .execution_profile()
        .ok_or("expected execution failure profile")?;

    assert_preview_failure_context(context, "preview_execute_collect")?;
    assert_eq!(profile.outcome(), QueryExecutionOutcome::Error);
    assert!(profile.partial());
    assert_eq!(
        events,
        vec![
            ProgressEvent::Started {
                operation: ProgressOperation::PreviewTable
            },
            ProgressEvent::PhaseChanged {
                phase: ProgressPhase::PreparingPreview
            },
            ProgressEvent::PhaseChanged {
                phase: ProgressPhase::CollectingPreview
            },
            ProgressEvent::Failed,
        ]
    );
    Ok(())
}

#[test]
fn detailed_preview_attaches_one_success_profile_with_the_exact_limit() -> TestResult {
    let mut session = DeltaFunnelSession::new(SessionOptions::default()).map_err(failure)?;
    let table = table_from_sql(&mut session, "select 1 as id union all select 2 as id")
        .map_err(failure)?;

    for (limit, row_limit) in [(0, 0), (1, 1)] {
        let preview = preview_table(
            &session,
            &table,
            PreviewOptions::new(limit)
                .with_execution_profile_mode(ExecutionProfileMode::Detailed),
        )
        .map_err(failure)?;
        let profile = preview
            .execution_profile()
            .ok_or("expected detailed preview profile")?;

        assert_eq!(profile.scope(), QueryExecutionScope::Preview);
        assert_eq!(profile.outcome(), QueryExecutionOutcome::Success);
        assert!(!profile.partial());
        assert_eq!(profile.delta_funnel_row_limit(), Some(row_limit));
        assert!(!profile.operators().is_empty());
        assert!(
            preview
                .phase_timings()
                .iter()
                .all(|timing| timing.status() == PhaseStatus::completed())
        );
        let timeline = preview
            .operation_timeline()
            .ok_or("expected detailed preview timeline")?;
        assert_eq!(timeline.status(), TimelineSpanStatus::Completed);
        let phase_spans = timeline
            .spans()
            .iter()
            .filter(|span| span.category() == "delta_funnel.preview.phase")
            .collect::<Vec<_>>();
        assert_eq!(phase_spans.len(), PREVIEW_PHASE_COUNT - 1);
        for (timing, span) in preview.phase_timings().iter().zip(phase_spans) {
            assert_eq!(timing.elapsed_micros(), Some(span.duration_micros()));
        }
        assert!(
            timeline
                .spans()
                .iter()
                .filter(|span| span.category() == "datafusion.operator.lifecycle")
                .all(|span| span.time_semantics() == TimelineSpanTimeSemantics::Lifecycle)
        );
    }
    Ok(())
}

#[test]
fn runtime_preview_table_returns_limited_formatted_rows() -> TestResult {
    let runtime = DeltaFunnelRuntime::new().map_err(failure)?;
    let mut session = DeltaFunnelSession::new(SessionOptions::default()).map_err(failure)?;
    let table = table_from_sql(
        &mut session,
        "select 'open' as status union all select 'closed' as status order by status desc",
    )
    .map_err(failure)?;

    let preview = runtime
        .runtime()
        .block_on(run_preview(
            &session,
            &table,
            PreviewOptions::new(1),
            &mut Vec::new(),
        ))
        .map_err(failure)?;

    assert!(preview.text().contains("| status |"));
    assert!(
        preview
            .text()
            .lines()
            .any(|line| line.contains("| open   |"))
    );
    assert!(
        !preview
            .text()
            .lines()
            .any(|line| line.contains("| closed |"))
    );
    Ok(())
}
