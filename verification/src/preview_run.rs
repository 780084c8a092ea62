//! One bounded preview, phase by phase.
//!
//! Each phase is a type of its own. What the query engine answered is handed to the phase,
//! which gives the next phase or the error of the whole preview.

use std::sync::Arc;

use datafusion::arrow::datatypes::Schema;
use datafusion::prelude::DataFrame;
use vstd::prelude::*;

use crate::clock::OperationClock;
use crate::engine::{
    PreviewBatch, batches_table, batches_to_text, dataframe_schema, limit_dataframe,
    limited_dataframe, schema_fields, schema_of,
};
use crate::errors::{
    DeltaFunnelError, ErrorView, datafusion_handoff_setup_error, handoff_setup,
};
use crate::execution::{ProgressEvent, ProgressOperation, ProgressPhase};
use crate::handles::{
    PREVIEW_DATAFRAME_PLANNING_PHASE, PREVIEW_EXECUTE_COLLECT_PHASE, PREVIEW_FORMAT_HTML_PHASE,
    PREVIEW_FORMAT_TEXT_PHASE, PREVIEW_PHYSICAL_PLANNING_PHASE, PREVIEW_STREAM_SETUP_PHASE,
    PreviewOptions, TablePreview, TablePreviewView, preview_phase_names,
};
use crate::html::{batches_html, preview_batches_to_html};
use crate::preview::{
    PhaseTimerView, PreviewPhaseTimer, PreviewTimingTracker, TrackerView, failure_timings,
    phase_completed, preview_failure, preview_timeline, profile_spans, started_phase,
    success_timings,
};
use crate::report::{
    ExecutionProfileMode, PhaseStatus, QueryExecutionOutcome, QueryExecutionProfile,
    QueryExecutionProfileView, QueryExecutionScope, QueryOperatorProfile, QueryOperatorView,
    ReportReasonCode, opt_view, views,
};
use crate::timeline::{TimelineSpanStatus, TimelineSpanView, finished_span};

verus! {

/// The profile that is asked for a preview, if one is: its scope and its row limit.
pub open spec fn wanted_preview_profile(options: PreviewOptions) -> Option<
    (QueryExecutionScope, u64),
> {
    if options.profile_mode() == ExecutionProfileMode::Detailed {
        Some((QueryExecutionScope::Preview, options.row_limit() as u64))
    } else {
        None
    }
}

/// Tells which profile is registered for a preview.
pub fn register_preview_execution_profile(options: PreviewOptions) -> (r: Option<
    (QueryExecutionScope, u64),
>)
    ensures
        r == wanted_preview_profile(options),
{
    match options.execution_profile_mode() {
        ExecutionProfileMode::Disabled => None,
        ExecutionProfileMode::Detailed => Some(
            (QueryExecutionScope::Preview, options.limit() as u64),
        ),
    }
}

/// The profile of a preview whose execution ended in some way, if one is wanted.
pub open spec fn preview_profile(
    options: PreviewOptions,
    outcome: QueryExecutionOutcome,
    operators: Seq<QueryOperatorView>,
) -> Option<QueryExecutionProfileView> {
    match wanted_preview_profile(options) {
        Some((scope, limit)) => Some(
            QueryExecutionProfileView { scope, outcome, row_limit: Some(limit), operators },
        ),
        None => None,
    }
}

/// Makes the profile of a preview from the operators that were executed, if one is wanted.
fn preview_execution_profile(
    options: PreviewOptions,
    outcome: QueryExecutionOutcome,
    operators: Vec<QueryOperatorProfile>,
) -> (r: Option<QueryExecutionProfile>)
    ensures
        opt_view(r) == preview_profile(options, outcome, views(operators@)),
{
    match register_preview_execution_profile(options) {
        Some((scope, limit)) => Some(
            QueryExecutionProfile::new(scope, outcome, Some(limit), operators),
        ),
        None => None,
    }
}

/// A preview that succeeded has a profile exactly in detailed mode; it tells of a successful
/// execution and has the limit of the preview.
pub open spec fn has_wanted_profile(
    options: PreviewOptions,
    profile: Option<QueryExecutionProfileView>,
) -> bool {
    &&& profile is Some <==> options.profile_mode() == ExecutionProfileMode::Detailed
    &&& profile matches Some(p) ==> p.scope == QueryExecutionScope::Preview && p.outcome
        == QueryExecutionOutcome::Success && p.row_limit == Some(options.row_limit() as u64)
}

/// The phases that do the work of a preview.
#[derive(Debug, Clone, Copy, PartialEq, Eq, Structural)]
pub enum PreviewStage {
    /// The bounded query is planned.
    DataFramePlanning,
    /// Its execution is planned.
    PhysicalPlanning,
    /// Its row stream is set up.
    StreamSetup,
    /// Its rows are collected.
    ExecuteCollect,
    /// The rows are rendered as text.
    FormatText,
    /// The rows are rendered as HTML.
    FormatHtml,
}

/// The phases in order.
pub open spec fn preview_stages() -> Seq<PreviewStage> {
    seq![
        PreviewStage::DataFramePlanning,
        PreviewStage::PhysicalPlanning,
        PreviewStage::StreamSetup,
        PreviewStage::ExecuteCollect,
        PreviewStage::FormatText,
        PreviewStage::FormatHtml,
    ]
}

/// The live phase that is announced on entering a phase, if one is.
pub open spec fn announcement(stage: PreviewStage) -> Option<ProgressPhase> {
    match stage {
        PreviewStage::DataFramePlanning => Some(ProgressPhase::PreparingPreview),
        PreviewStage::StreamSetup => Some(ProgressPhase::CollectingPreview),
        PreviewStage::FormatText => Some(ProgressPhase::FormattingPreview),
        _ => None,
    }
}

/// Makes the live event for entering a phase, if there is one.
pub fn emit_preview_phase(stage: PreviewStage) -> (r: Option<ProgressEvent>)
    ensures
        match announcement(stage) {
            Some(phase) => r == Some(ProgressEvent::PhaseChanged { phase }),
            None => r is None,
        },
{
    match stage {
        PreviewStage::DataFramePlanning => Some(
            ProgressEvent::PhaseChanged { phase: ProgressPhase::PreparingPreview },
        ),
        PreviewStage::StreamSetup => Some(
            ProgressEvent::PhaseChanged { phase: ProgressPhase::CollectingPreview },
        ),
        PreviewStage::FormatText => Some(
            ProgressEvent::PhaseChanged { phase: ProgressPhase::FormattingPreview },
        ),
        _ => None,
    }
}

/// The live event that opens a reported preview.
pub fn preview_started_event() -> (r: ProgressEvent)
    ensures
        r == (ProgressEvent::Started { operation: ProgressOperation::PreviewTable }),
{
    ProgressEvent::Started { operation: ProgressOperation::PreviewTable }
}

/// The live event that closes a preview that succeeded or failed.
pub open spec fn closing_event(succeeded: bool) -> ProgressEvent {
    if succeeded {
        ProgressEvent::Completed
    } else {
        ProgressEvent::Failed
    }
}

/// The live event that closes a reported preview.
pub fn preview_finished_event(result: &Result<TablePreview, DeltaFunnelError>) -> (r: ProgressEvent)
    ensures
        r == closing_event(*result is Ok),
{
    match result {
        Ok(_) => ProgressEvent::Completed,
        Err(_) => ProgressEvent::Failed,
    }
}

/// The live phases that are announced while the first `n` phases are entered.
pub open spec fn announced(n: nat) -> Seq<ProgressPhase>
    decreases n,
{
    if n == 0 {
        seq![]
    } else {
        match announcement(preview_stages()[n - 1]) {
            Some(phase) => announced((n - 1) as nat).push(phase),
            None => announced((n - 1) as nat),
        }
    }
}

/// A preview announces preparing, collecting and formatting, in this order, each when it gets
/// that far: physical planning still belongs to preparing, and a preview that fails while its
/// rows are collected announces no formatting.
pub proof fn announcements_follow_the_phases()
    ensures
        announced(1) == seq![ProgressPhase::PreparingPreview],
        announced(2) == seq![ProgressPhase::PreparingPreview],
        announced(3) == seq![ProgressPhase::PreparingPreview, ProgressPhase::CollectingPreview],
        announced(4) == seq![ProgressPhase::PreparingPreview, ProgressPhase::CollectingPreview],
        announced(6) == seq![
            ProgressPhase::PreparingPreview,
            ProgressPhase::CollectingPreview,
            ProgressPhase::FormattingPreview,
        ],
{
    reveal_with_fuel(announced, 7);
    assert(announced(1) =~= seq![ProgressPhase::PreparingPreview]);
    assert(announced(3) =~= seq![
        ProgressPhase::PreparingPreview,
        ProgressPhase::CollectingPreview,
    ]);
    assert(announced(6) =~= seq![
        ProgressPhase::PreparingPreview,
        ProgressPhase::CollectingPreview,
        ProgressPhase::FormattingPreview,
    ]);
}

/// What a running preview says.
pub struct PreviewRunView {
    pub options: PreviewOptions,
    pub tracker: TrackerView,
    pub timer: PhaseTimerView,
}

/// The phase that a preview is in.
pub open spec fn current_stage(run: PreviewRunView) -> PreviewStage {
    preview_stages()[run.tracker.timings.len() as int]
}

/// A preview that starts at a clock reading.
pub open spec fn run_started(options: PreviewOptions, now: u64) -> PreviewRunView {
    PreviewRunView {
        options,
        tracker: TrackerView { timings: seq![], spans: seq![] },
        timer: started_phase(PREVIEW_DATAFRAME_PLANNING_PHASE@, now),
    }
}

/// A preview whose phase has completed and that has entered the next.
pub open spec fn run_advanced(run: PreviewRunView, next_phase: Seq<char>, now: u64) -> PreviewRunView {
    PreviewRunView {
        options: run.options,
        tracker: phase_completed(run.tracker, run.timer, now),
        timer: started_phase(next_phase, now),
    }
}

/// The error of a preview whose phase has failed.
pub open spec fn run_failed(
    run: PreviewRunView,
    profile: Option<QueryExecutionProfileView>,
    source: ErrorView,
    now: u64,
) -> ErrorView {
    preview_failure(run.tracker, run.timer, profile, source, now)
}

/// Preview in one of its phases.
struct PreviewRun {
    options: PreviewOptions,
    tracker: PreviewTimingTracker,
    timer: PreviewPhaseTimer,
}

impl PreviewRun {
    spec fn model(self) -> PreviewRunView {
        PreviewRunView { options: self.options, tracker: self.tracker@, timer: self.timer@ }
    }

    fn start(options: PreviewOptions, now_micros: u64) -> (r: Self)
        ensures
            r.model() == run_started(options, now_micros),
    {
        let tracker = PreviewTimingTracker::start();
        let timer = tracker.start_phase(PREVIEW_DATAFRAME_PLANNING_PHASE, now_micros);
        PreviewRun { options, tracker, timer }
    }

    fn advance(self, next_phase: &'static str, now_micros: u64) -> (r: Self)
        ensures
            r.model() == run_advanced(self.model(), next_phase@, now_micros),
    {
        let mut tracker = self.tracker;
        tracker.record_completed(self.timer, now_micros);
        let timer = tracker.start_phase(next_phase, now_micros);
        PreviewRun { options: self.options, tracker, timer }
    }

    fn fail(
        self,
        profile: Option<QueryExecutionProfile>,
        source: DeltaFunnelError,
        now_micros: u64,
    ) -> (r: DeltaFunnelError)
        ensures
            r@ == run_failed(self.model(), opt_view(profile), source@, now_micros),
    {
        self.tracker.failed(self.timer, profile, source, now_micros)
    }
}

/// Preview whose bounded query is being planned.
pub struct PreviewPlanning {
    run: PreviewRun,
}

/// Preview whose execution is being planned.
pub struct PreviewPhysicalPlanning {
    run: PreviewRun,
    schema: Arc<Schema>,
}

/// Preview whose row stream is being set up.
pub struct PreviewStreamSetup {
    run: PreviewRun,
    schema: Arc<Schema>,
}

/// Preview whose rows are being collected.
pub struct PreviewCollecting {
    run: PreviewRun,
    schema: Arc<Schema>,
}

/// Preview whose rows are being rendered as text.
pub struct PreviewFormatting {
    run: PreviewRun,
    schema: Arc<Schema>,
    batches: Vec<PreviewBatch>,
    profile: Option<QueryExecutionProfile>,
}

/// Preview whose rows are being rendered as HTML.
pub struct PreviewHtmlFormatting {
    run: PreviewRun,
    schema: Arc<Schema>,
    batches: Vec<PreviewBatch>,
    profile: Option<QueryExecutionProfile>,
    text: String,
}

/// What planning the bounded query of a preview comes to: the columns of the whole query, and
/// the bounded query, or what went wrong.
pub open spec fn bounded_query(
    planned: Result<DataFrame, ErrorView>,
    limit: usize,
) -> Result<(Schema, DataFrame), ErrorView> {
    match planned {
        Err(source) => Err(source),
        Ok(dataframe) => match limited_dataframe(dataframe, 0, Some(limit)) {
            Err(message) => Err(handoff_setup("preview_limit"@, message)),
            Ok(limited) => Ok((dataframe_schema(dataframe), limited)),
        },
    }
}

impl PreviewPlanning {
    /// The preview so far.
    pub closed spec fn model(self) -> PreviewRunView {
        self.run.model()
    }

    #[verifier::type_invariant]
    spec fn in_its_phase(self) -> bool {
        run_at(self.run.model(), 0)
    }

    /// Returns the phase that the preview is in.
    pub fn stage(&self) -> (r: PreviewStage)
        ensures
            r == PreviewStage::DataFramePlanning,
            r == current_stage(self.model()),
    {
        proof {
            use_type_invariant(self);
        }
        PreviewStage::DataFramePlanning
    }

    /// Starts a preview at a clock reading.
    pub fn start(options: PreviewOptions, now_micros: u64) -> (r: Self)
        ensures
            r.model() == run_started(options, now_micros),
    {
        proof {
            preview_starts_in_its_first_phase(options, now_micros);
        }
        PreviewPlanning { run: PreviewRun::start(options, now_micros) }
    }

    /// Takes the planned query, bounds it, and goes on to planning its execution.
    pub fn dataframe_planned(
        self,
        planned: Result<DataFrame, DeltaFunnelError>,
        now_micros: u64,
    ) -> (r: Result<(PreviewPhysicalPlanning, DataFrame), DeltaFunnelError>)
        ensures
            ({
                let planned_view = match planned {
                    Ok(dataframe) => Ok(dataframe),
                    Err(source) => Err(source@),
                };
                match bounded_query(planned_view, self.model().options.row_limit()) {
                    Ok((schema, limited)) => r matches Ok((next, dataframe)) && next.model()
                        == run_advanced(
                        self.model(),
                        PREVIEW_PHYSICAL_PLANNING_PHASE@,
                        now_micros,
                    ) && next.columns() == schema && dataframe == limited,
                    Err(source) => r matches Err(e) && e@ == run_failed(
                        self.model(),
                        None,
                        source,
                        now_micros,
                    ),
                }
            }),
    {
        proof {
            use_type_invariant(&self);
            preview_goes_through_its_phases(self.run.model(), 0, now_micros);
        }
        let dataframe = match planned {
            Ok(dataframe) => dataframe,
            Err(source) => {
                return Err(self.run.fail(None, source, now_micros));
            },
        };
        let schema = schema_of(&dataframe);
        match limit_dataframe(dataframe, 0, Some(self.run.options.limit())) {
            Ok(limited) => {
                let run = self.run.advance(PREVIEW_PHYSICAL_PLANNING_PHASE, now_micros);
                Ok((PreviewPhysicalPlanning { run, schema }, limited))
            },
            Err(message) => {
                let source = datafusion_handoff_setup_error("preview_limit", message.as_str());
                Err(self.run.fail(None, source, now_micros))
            },
        }
    }
}

impl PreviewPhysicalPlanning {
    /// The preview so far.
    pub closed spec fn model(self) -> PreviewRunView {
        self.run.model()
    }

    #[verifier::type_invariant]
    spec fn in_its_phase(self) -> bool {
        run_at(self.run.model(), 1)
    }

    /// Returns the phase that the preview is in.
    pub fn stage(&self) -> (r: PreviewStage)
        ensures
            r == PreviewStage::PhysicalPlanning,
            r == current_stage(self.model()),
    {
        proof {
            use_type_invariant(self);
        }
        PreviewStage::PhysicalPlanning
    }

    /// The columns of the preview.
    pub closed spec fn columns(self) -> Schema {
        *self.schema
    }

    /// Takes the outcome of planning the execution, and goes on to setting up the stream.
    pub fn physical_plan_created(self, created: Result<(), String>, now_micros: u64) -> (r: Result<
        PreviewStreamSetup,
        DeltaFunnelError,
    >)
        ensures
            match created {
                Ok(_) => r matches Ok(next) && next.model() == run_advanced(
                    self.model(),
                    PREVIEW_STREAM_SETUP_PHASE@,
                    now_micros,
                ) && next.columns() == self.columns(),
                Err(message) => r matches Err(e) && e@ == run_failed(
                    self.model(),
                    None,
                    handoff_setup("preview_collect"@, message@),
                    now_micros,
                ),
            },
    {
        proof {
            use_type_invariant(&self);
            preview_goes_through_its_phases(self.run.model(), 1, now_micros);
        }
        match created {
            Ok(_) => {
                let run = self.run.advance(PREVIEW_STREAM_SETUP_PHASE, now_micros);
                Ok(PreviewStreamSetup { run, schema: self.schema })
            },
            Err(message) => {
                let source = datafusion_handoff_setup_error("preview_collect", message.as_str());
                Err(self.run.fail(None, source, now_micros))
            },
        }
    }
}

impl PreviewStreamSetup {
    /// The preview so far.
    pub closed spec fn model(self) -> PreviewRunView {
        self.run.model()
    }

    #[verifier::type_invariant]
    spec fn in_its_phase(self) -> bool {
        run_at(self.run.model(), 2)
    }

    /// Returns the phase that the preview is in.
    pub fn stage(&self) -> (r: PreviewStage)
        ensures
            r == PreviewStage::StreamSetup,
            r == current_stage(self.model()),
    {
        proof {
            use_type_invariant(self);
        }
        PreviewStage::StreamSetup
    }

    /// The columns of the preview.
    pub closed spec fn columns(self) -> Schema {
        *self.schema
    }

    /// Takes the outcome of setting up the stream, and goes on to collecting rows. A failure
    /// ends the execution: the operators are those of the plan that never ran.
    pub fn stream_ready(
        self,
        ready: Result<(), String>,
        operators: Vec<QueryOperatorProfile>,
        now_micros: u64,
    ) -> (r: Result<PreviewCollecting, DeltaFunnelError>)
        ensures
            match ready {
                Ok(_) => r matches Ok(next) && next.model() == run_advanced(
                    self.model(),
                    PREVIEW_EXECUTE_COLLECT_PHASE@,
                    now_micros,
                ) && next.columns() == self.columns(),
                Err(message) => r matches Err(e) && e@ == run_failed(
                    self.model(),
                    preview_profile(
                        self.model().options,
                        QueryExecutionOutcome::Error,
                        views(operators@),
                    ),
                    handoff_setup("preview_collect"@, message@),
                    now_micros,
                ),
            },
    {
        proof {
            use_type_invariant(&self);
            preview_goes_through_its_phases(self.run.model(), 2, now_micros);
        }
        match ready {
            Ok(_) => {
                let run = self.run.advance(PREVIEW_EXECUTE_COLLECT_PHASE, now_micros);
                Ok(PreviewCollecting { run, schema: self.schema })
            },
            Err(message) => {
                let source = datafusion_handoff_setup_error("preview_collect", message.as_str());
                let profile = preview_execution_profile(
                    self.run.options,
                    QueryExecutionOutcome::Error,
                    operators,
                );
                Err(self.run.fail(profile, source, now_micros))
            },
        }
    }
}

impl PreviewCollecting {
    /// The preview so far.
    pub closed spec fn model(self) -> PreviewRunView {
        self.run.model()
    }

    #[verifier::type_invariant]
    spec fn in_its_phase(self) -> bool {
        run_at(self.run.model(), 3)
    }

    /// Returns the phase that the preview is in.
    pub fn stage(&self) -> (r: PreviewStage)
        ensures
            r == PreviewStage::ExecuteCollect,
            r == current_stage(self.model()),
    {
        proof {
            use_type_invariant(self);
        }
        PreviewStage::ExecuteCollect
    }

    /// The columns of the preview.
    pub closed spec fn columns(self) -> Schema {
        *self.schema
    }

    /// Takes the collected rows and the operators that were executed, and goes on to rendering.
    /// The profile tells of success where all rows were collected.
    pub fn collected(
        self,
        collected: Result<Vec<PreviewBatch>, DeltaFunnelError>,
        operators: Vec<QueryOperatorProfile>,
        now_micros: u64,
    ) -> (r: Result<PreviewFormatting, DeltaFunnelError>)
        ensures
            match collected {
                Ok(batches) => r matches Ok(next) && next.model() == run_advanced(
                    self.model(),
                    PREVIEW_FORMAT_TEXT_PHASE@,
                    now_micros,
                ) && next.columns() == self.columns() && next.rows() == batches@
                    && next.profile_view() == preview_profile(
                    self.model().options,
                    QueryExecutionOutcome::Success,
                    views(operators@),
                ),
                Err(source) => r matches Err(e) && e@ == run_failed(
                    self.model(),
                    preview_profile(
                        self.model().options,
                        QueryExecutionOutcome::Error,
                        views(operators@),
                    ),
                    source@,
                    now_micros,
                ),
            },
    {
        proof {
            use_type_invariant(&self);
            preview_goes_through_its_phases(self.run.model(), 3, now_micros);
        }
        match collected {
            Ok(batches) => {
                let profile = preview_execution_profile(
                    self.run.options,
                    QueryExecutionOutcome::Success,
                    operators,
                );
                let run = self.run.advance(PREVIEW_FORMAT_TEXT_PHASE, now_micros);
                Ok(PreviewFormatting { run, schema: self.schema, batches, profile })
            },
            Err(source) => {
                let profile = preview_execution_profile(
                    self.run.options,
                    QueryExecutionOutcome::Error,
                    operators,
                );
                Err(self.run.fail(profile, source, now_micros))
            },
        }
    }
}

/// The preview that came out of its phases.
pub open spec fn finished_preview(
    run: PreviewRunView,
    profile: Option<QueryExecutionProfileView>,
    text: Seq<char>,
    html: Seq<char>,
    now: u64,
) -> TablePreviewView {
    let tracker = phase_completed(run.tracker, run.timer, now);
    TablePreviewView {
        text,
        html,
        phase_timings: success_timings(tracker, now),
        execution_profile: profile,
        operation_timeline: Some(
            preview_timeline(tracker.spans, profile, TimelineSpanStatus::Completed, now),
        ),
    }
}

/// What rendering comes to, given the text, the HTML and the clock readings after each.
pub open spec fn formatted_preview(
    run: PreviewRunView,
    profile: Option<QueryExecutionProfileView>,
    text: Result<Seq<char>, Seq<char>>,
    html: Result<Seq<char>, Seq<char>>,
    text_done: u64,
    html_done: u64,
) -> Result<TablePreviewView, ErrorView> {
    match text {
        Err(message) => Err(
            run_failed(run, profile, handoff_setup("preview_text"@, message), text_done),
        ),
        Ok(shown) => {
            let next = run_advanced(run, PREVIEW_FORMAT_HTML_PHASE@, text_done);
            match html {
                Err(message) => Err(
                    run_failed(next, profile, handoff_setup("preview_html"@, message), html_done),
                ),
                Ok(page) => Ok(finished_preview(next, profile, shown, page, html_done)),
            }
        },
    }
}

impl PreviewFormatting {
    /// The preview so far.
    pub closed spec fn model(self) -> PreviewRunView {
        self.run.model()
    }

    #[verifier::type_invariant]
    spec fn in_its_phase(self) -> bool {
        run_at(self.run.model(), 4)
            && has_wanted_profile(self.run.options, opt_view(self.profile))
    }

    /// Returns the phase that the preview is in.
    pub fn stage(&self) -> (r: PreviewStage)
        ensures
            r == PreviewStage::FormatText,
            r == current_stage(self.model()),
    {
        proof {
            use_type_invariant(self);
        }
        PreviewStage::FormatText
    }

    /// The columns of the preview.
    pub closed spec fn columns(self) -> Schema {
        *self.schema
    }

    /// The collected rows.
    pub closed spec fn rows(self) -> Seq<PreviewBatch> {
        self.batches@
    }

    /// The profile of the execution.
    pub closed spec fn profile_view(self) -> Option<QueryExecutionProfileView> {
        opt_view(self.profile)
    }

    /// Takes the rendered text, and goes on to rendering HTML.
    pub fn text_formatted(self, text: Result<String, String>, now_micros: u64) -> (r: Result<
        PreviewHtmlFormatting,
        DeltaFunnelError,
    >)
        ensures
            match text {
                Ok(shown) => r matches Ok(next) && next.model() == run_advanced(
                    self.model(),
                    PREVIEW_FORMAT_HTML_PHASE@,
                    now_micros,
                ) && next.columns() == self.columns() && next.rows() == self.rows()
                    && next.profile_view() == self.profile_view() && next.shown() == shown@,
                Err(message) => r matches Err(e) && e@ == run_failed(
                    self.model(),
                    self.profile_view(),
                    handoff_setup("preview_text"@, message@),
                    now_micros,
                ),
            },
    {
        proof {
            use_type_invariant(&self);
            preview_goes_through_its_phases(self.run.model(), 4, now_micros);
        }
        match text {
            Ok(text) => {
                let run = self.run.advance(PREVIEW_FORMAT_HTML_PHASE, now_micros);
                Ok(
                    PreviewHtmlFormatting {
                        run,
                        schema: self.schema,
                        batches: self.batches,
                        profile: self.profile,
                        text,
                    },
                )
            },
            Err(message) => {
                let source = datafusion_handoff_setup_error("preview_text", message.as_str());
                Err(self.run.fail(self.profile, source, now_micros))
            },
        }
    }

    /// Renders the collected rows as text and as HTML and finishes the preview. Whatever the
    /// clock says, the outcome is the one for its two readings.
    pub fn format_preview_result(self, clock: &OperationClock) -> (r: Result<
        TablePreview,
        DeltaFunnelError,
    >)
        ensures
            exists|text_done: u64, html_done: u64|
                {
                    match #[trigger] formatted_preview(
                        self.model(),
                        self.profile_view(),
                        batches_table(self.rows()),
                        batches_html(schema_fields(self.columns()), self.rows()),
                        text_done,
                        html_done,
                    ) {
                        Ok(preview) => r matches Ok(p) && p@ == preview,
                        Err(problem) => r matches Err(e) && e@ == problem,
                    }
                },
            r matches Ok(p) ==> has_wanted_profile(self.model().options, p@.execution_profile),
    {
        let text = batches_to_text(&self.batches);
        let text_done: u64 = clock.now_micros();
        let ghost outcome = formatted_preview(
            self.model(),
            self.profile_view(),
            batches_table(self.rows()),
            batches_html(schema_fields(self.columns()), self.rows()),
            text_done,
            0,
        );
        let next = match self.text_formatted(text, text_done) {
            Ok(next) => next,
            Err(e) => {
                return Err(e);
            },
        };
        let html = preview_batches_to_html(&next.schema, &next.batches);
        let html_done: u64 = clock.now_micros();
        let ghost outcome = formatted_preview(
            self.model(),
            self.profile_view(),
            batches_table(self.rows()),
            batches_html(schema_fields(self.columns()), self.rows()),
            text_done,
            html_done,
        );
        next.html_formatted(html, html_done)
    }
}

impl PreviewHtmlFormatting {
    /// The preview so far.
    pub closed spec fn model(self) -> PreviewRunView {
        self.run.model()
    }

    #[verifier::type_invariant]
    spec fn in_its_phase(self) -> bool {
        run_at(self.run.model(), 5)
            && has_wanted_profile(self.run.options, opt_view(self.profile))
    }

    /// Returns the phase that the preview is in.
    pub fn stage(&self) -> (r: PreviewStage)
        ensures
            r == PreviewStage::FormatHtml,
            r == current_stage(self.model()),
    {
        proof {
            use_type_invariant(self);
        }
        PreviewStage::FormatHtml
    }

    /// The columns of the preview.
    pub closed spec fn columns(self) -> Schema {
        *self.schema
    }

    /// The collected rows.
    pub closed spec fn rows(self) -> Seq<PreviewBatch> {
        self.batches@
    }

    /// The profile of the execution.
    pub closed spec fn profile_view(self) -> Option<QueryExecutionProfileView> {
        opt_view(self.profile)
    }

    /// The rendered text.
    pub closed spec fn shown(self) -> Seq<char> {
        self.text@
    }

    /// Takes the rendered HTML and finishes the preview.
    pub fn html_formatted(self, html: Result<String, String>, now_micros: u64) -> (r: Result<
        TablePreview,
        DeltaFunnelError,
    >)
        ensures
            match html {
                Ok(page) => r matches Ok(preview) && preview@ == finished_preview(
                    self.model(),
                    self.profile_view(),
                    self.shown(),
                    page@,
                    now_micros,
                ),
                Err(message) => r matches Err(e) && e@ == run_failed(
                    self.model(),
                    self.profile_view(),
                    handoff_setup("preview_html"@, message@),
                    now_micros,
                ),
            },
            r matches Ok(p) ==> has_wanted_profile(self.model().options, p@.execution_profile),
    {
        proof {
            use_type_invariant(&self);
        }
        match html {
            Ok(page) => {
                let mut tracker = self.run.tracker;
                tracker.record_completed(self.run.timer, now_micros);
                let (phase_timings, timeline) = match &self.profile {
                    Some(profile) => tracker.completed(Some(profile), now_micros),
                    None => tracker.completed(None, now_micros),
                };
                Ok(
                    TablePreview::from_execution(
                        self.text,
                        page,
                        phase_timings,
                        self.profile,
                        Some(timeline),
                    ),
                )
            },
            Err(message) => {
                let source = datafusion_handoff_setup_error("preview_html", message.as_str());
                Err(self.run.fail(self.profile, source, now_micros))
            },
        }
    }
}

/// A preview has completed its first `k` phases in order and is in the next one.
pub open spec fn run_at(run: PreviewRunView, k: nat) -> bool {
    &&& run.tracker.timings.len() == k
    &&& k < 6
    &&& run.timer.phase_name == preview_phase_names()[k as int]
    &&& forall|i: int|
        0 <= i < k ==> (#[trigger] run.tracker.timings[i]).phase_name == preview_phase_names()[i]
            && run.tracker.timings[i].status == PhaseStatus::Completed
            && run.tracker.timings[i].elapsed_micros is Some
}

/// A preview starts in its first phase.
pub proof fn preview_starts_in_its_first_phase(options: PreviewOptions, now: u64)
    ensures
        run_at(run_started(options, now), 0),
{
}

/// A preview goes through its phases in order.
pub proof fn preview_goes_through_its_phases(run: PreviewRunView, k: nat, now: u64)
    requires
        run_at(run, k),
        k + 1 < 6,
    ensures
        run_at(run_advanced(run, preview_phase_names()[(k + 1) as int], now), k + 1),
{
    let next = run_advanced(run, preview_phase_names()[(k + 1) as int], now);
    assert forall|i: int| 0 <= i < k + 1 implies (
    #[trigger] next.tracker.timings[i]).phase_name == preview_phase_names()[i]
        && next.tracker.timings[i].status == PhaseStatus::Completed
        && next.tracker.timings[i].elapsed_micros is Some by {
        if i < k {
            assert(next.tracker.timings[i] == run.tracker.timings[i]);
        }
    }
}

/// Whichever phase fails, the error tells of every phase in order: the earlier ones completed,
/// the failed one and the whole failed, and the later ones never started. The whole took as
/// long as the timeline says.
pub proof fn failed_preview_accounts_for_every_phase(
    run: PreviewRunView,
    k: nat,
    profile: Option<QueryExecutionProfileView>,
    source: ErrorView,
    now: u64,
    i: int,
)
    requires
        run_at(run, k),
        0 <= i < 7,
    ensures
        run_failed(run, profile, source, now) matches ErrorView::PreviewFailed { context, .. } && {
            let timings = context.phase_timings;
            &&& context.failed_phase == preview_phase_names()[k as int]
            &&& timings.len() == 7
            &&& timings[i].phase_name == preview_phase_names()[i]
            &&& timings[i].status == (if i < k {
                PhaseStatus::Completed
            } else if i == k || i == 6 {
                PhaseStatus::Failed
            } else {
                PhaseStatus::NotStarted(ReportReasonCode::PriorFailure)
            })
            &&& timings[i].elapsed_micros is Some <==> !(timings[i].status is NotStarted)
            &&& timings[6].elapsed_micros == Some(context.operation_timeline.total_duration_micros)
            &&& context.operation_timeline.status == TimelineSpanStatus::Failed
            &&& context.execution_profile == profile
        },
{
    let timings = failure_timings(run.tracker, run.timer, now);
    if i < k {
        assert(timings[i] == run.tracker.timings[i]);
    }
}

/// A preview that succeeds tells of every phase in order, each completed.
pub proof fn finished_preview_accounts_for_every_phase(
    run: PreviewRunView,
    profile: Option<QueryExecutionProfileView>,
    text: Seq<char>,
    html: Seq<char>,
    now: u64,
    i: int,
)
    requires
        run_at(run, 5),
        0 <= i < 7,
    ensures
        ({
            let preview = finished_preview(run, profile, text, html, now);
            &&& preview.phase_timings.len() == 7
            &&& preview.phase_timings[i].phase_name == preview_phase_names()[i]
            &&& preview.phase_timings[i].status == PhaseStatus::Completed
            &&& preview.phase_timings[i].elapsed_micros is Some
            &&& preview.operation_timeline matches Some(timeline)
                && preview.phase_timings[6].elapsed_micros == Some(timeline.total_duration_micros)
        }),
{
    let tracker = phase_completed(run.tracker, run.timer, now);
    let timings = success_timings(tracker, now);
    if i < 5 {
        assert(timings[i] == run.tracker.timings[i]);
    }
}

/// The spans all end by a clock reading.
pub open spec fn spans_end_by(spans: Seq<TimelineSpanView>, now: u64) -> bool {
    forall|i: int|
        0 <= i < spans.len() ==> (#[trigger] spans[i]).start_offset_micros
            + spans[i].duration_micros <= now
}

/// A preview whose spans end before its current phase started.
pub open spec fn run_in_time(run: PreviewRunView) -> bool {
    spans_end_by(run.tracker.spans, run.timer.span.start_offset_micros)
}

/// While the clock does not go back, the phases of a preview lie in its timeline one after the
/// other, and all of them end by the end of the preview.
pub proof fn phase_spans_lie_within_the_preview(
    run: PreviewRunView,
    next_phase: Seq<char>,
    profile: Option<QueryExecutionProfileView>,
    source: ErrorView,
    text: Seq<char>,
    html: Seq<char>,
    now: u64,
    i: int,
)
    requires
        run_in_time(run),
        run.timer.span.start_offset_micros <= now,
        0 <= i <= run.tracker.spans.len(),
    ensures
        run_in_time(run_advanced(run, next_phase, now)),
        run_failed(run, profile, source, now) matches ErrorView::PreviewFailed { context, .. } && {
            let timeline = context.operation_timeline;
            timeline.spans[i].start_offset_micros + timeline.spans[i].duration_micros
                <= timeline.total_duration_micros
        },
        finished_preview(run, profile, text, html, now).operation_timeline matches Some(timeline)
            && timeline.spans[i].start_offset_micros + timeline.spans[i].duration_micros
            <= timeline.total_duration_micros,
{
    let done = run_advanced(run, next_phase, now).tracker.spans;
    assert forall|k: int| 0 <= k < done.len() implies (#[trigger] done[k]).start_offset_micros
        + done[k].duration_micros <= now by {
        if k < run.tracker.spans.len() {
            assert(done[k] == run.tracker.spans[k]);
        }
    }
    let failed = run.tracker.spans.push(
        finished_span(run.timer.span, TimelineSpanStatus::Failed, now),
    );
    assert(failed[i].start_offset_micros + failed[i].duration_micros <= now) by {
        if i < run.tracker.spans.len() {
            assert(failed[i] == run.tracker.spans[i]);
        }
    }
    assert((failed + profile_spans(profile))[i] == failed[i]);
    assert((done + profile_spans(profile))[i] == done[i]);
}

} // verus!
