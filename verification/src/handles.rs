//! Handles and requests that callers of a session hold.

use vstd::prelude::*;
use vstd::string::StringExecFns;

use crate::report::{
    ExecutionProfileMode, PhaseStatus, PhaseTimingReport, PhaseTimingView, QueryExecutionProfile,
    QueryExecutionProfileView, ReportReasonCode, opt_view, untimed, views, views_push,
};
use crate::target::{
    MssqlTargetConfig, ResolvedMssqlTarget, ResolvedTargetView, TargetConfigView, quoted,
    quoted_text, target_debug,
};
use crate::target_plan::{MssqlTargetOutputPlan, TargetOutputPlanView};
use crate::text::{decimal, decimal_text, display_text, sanitize_text_for_display};
use crate::timeline::{OperationTimeline, OperationTimelineView};

verus! {

/// Phase that plans the query of a preview.
pub const PREVIEW_DATAFRAME_PLANNING_PHASE: &'static str = "preview_dataframe_planning";

/// Phase that plans how a preview query runs.
pub const PREVIEW_PHYSICAL_PLANNING_PHASE: &'static str = "preview_physical_planning";

/// Phase that sets up the row stream of a preview.
pub const PREVIEW_STREAM_SETUP_PHASE: &'static str = "preview_stream_setup";

/// Phase that collects the rows of a preview.
pub const PREVIEW_EXECUTE_COLLECT_PHASE: &'static str = "preview_execute_collect";

/// Phase that renders a preview as text.
pub const PREVIEW_FORMAT_TEXT_PHASE: &'static str = "preview_format_text";

/// Phase that renders a preview as HTML.
pub const PREVIEW_FORMAT_HTML_PHASE: &'static str = "preview_format_html";

/// Entry that stands for a whole preview.
pub const PREVIEW_TOTAL_PHASE: &'static str = "preview_total";

/// The phases of a preview in order, the whole preview last.
pub open spec fn preview_phase_names() -> Seq<Seq<char>> {
    seq![
        PREVIEW_DATAFRAME_PLANNING_PHASE@,
        PREVIEW_PHYSICAL_PLANNING_PHASE@,
        PREVIEW_STREAM_SETUP_PHASE@,
        PREVIEW_EXECUTE_COLLECT_PHASE@,
        PREVIEW_FORMAT_TEXT_PHASE@,
        PREVIEW_FORMAT_HTML_PHASE@,
        PREVIEW_TOTAL_PHASE@,
    ]
}

/// Number of entries in the timings of a preview.
pub const PREVIEW_PHASE_COUNT: usize = 7;

/// Returns the name of a preview phase by its position.
pub fn preview_phase_name(index: usize) -> (r: &'static str)
    requires
        index < PREVIEW_PHASE_COUNT,
    ensures
        r@ == preview_phase_names()[index as int],
{
    match index {
        0 => PREVIEW_DATAFRAME_PLANNING_PHASE,
        1 => PREVIEW_PHYSICAL_PLANNING_PHASE,
        2 => PREVIEW_STREAM_SETUP_PHASE,
        3 => PREVIEW_EXECUTE_COLLECT_PHASE,
        4 => PREVIEW_FORMAT_TEXT_PHASE,
        5 => PREVIEW_FORMAT_HTML_PHASE,
        _ => PREVIEW_TOTAL_PHASE,
    }
}

/// Query-load action mode requested by a caller.
#[derive(Debug, Clone, Copy, PartialEq, Eq, Structural)]
pub enum RunMode {
    /// Plan and execute the selected output workflow.
    Execute,
    /// Reuse planning paths without row production or SQL Server write effects.
    DryRun,
}

impl Default for RunMode {
    fn default() -> (r: Self)
        ensures
            r == RunMode::Execute,
    {
        RunMode::Execute
    }
}

impl RunMode {
    /// The name of the mode.
    pub open spec fn name_of(self) -> Seq<char> {
        match self {
            RunMode::Execute => "Execute"@,
            RunMode::DryRun => "DryRun"@,
        }
    }

    /// Returns the name of the mode.
    pub fn as_str(&self) -> (r: &'static str)
        ensures
            r@ == self.name_of(),
    {
        match self {
            RunMode::Execute => "Execute",
            RunMode::DryRun => "DryRun",
        }
    }
}

/// Kind of lazy table represented by a session handle.
#[derive(Debug, Clone, Copy, PartialEq, Eq, Structural)]
pub enum LazyTableKind {
    /// Registered Delta source table.
    DeltaSource,
    /// SQL-derived table.
    DerivedSql,
}

/// What a lazy table handle says.
pub struct LazyTableView {
    pub id: u64,
    pub kind: LazyTableKind,
    pub name: Seq<char>,
}

/// Lazy table identity owned by a query-load session.
#[derive(Debug, PartialEq, Eq)]
pub struct LazyTable {
    id: u64,
    kind: LazyTableKind,
    name: String,
}

impl View for LazyTable {
    type V = LazyTableView;

    closed spec fn view(&self) -> LazyTableView {
        LazyTableView { id: self.id, kind: self.kind, name: self.name@ }
    }
}

impl Clone for LazyTable {
    fn clone(&self) -> (r: Self)
        ensures
            r == *self,
    {
        LazyTable { id: self.id, kind: self.kind, name: self.name.clone() }
    }
}

/// The name of a table that no alias names yet.
pub open spec fn unnamed_table(id: u64) -> Seq<char> {
    "table_"@ + decimal(id as nat)
}

impl LazyTable {
    /// Creates a handle that carries no alias.
    pub fn placeholder(id: u64, kind: LazyTableKind) -> (r: Self)
        ensures
            r@ == (LazyTableView { id, kind, name: unnamed_table(id) }),
    {
        let mut name = "table_".to_owned();
        name.append(decimal_text(id).as_str());
        LazyTable { id, kind, name }
    }

    /// Creates the handle of a Delta source.
    pub fn delta_source(id: u64, name: String) -> (r: Self)
        ensures
            r@ == (LazyTableView { id, kind: LazyTableKind::DeltaSource, name: name@ }),
    {
        LazyTable { id, kind: LazyTableKind::DeltaSource, name }
    }

    /// Creates the handle of a SQL-derived table that carries no alias.
    pub fn derived_sql(id: u64) -> (r: Self)
        ensures
            r@ == (LazyTableView { id, kind: LazyTableKind::DerivedSql, name: unnamed_table(id) }),
    {
        Self::placeholder(id, LazyTableKind::DerivedSql)
    }

    /// Returns the same table under another name.
    pub fn with_name(&self, name: String) -> (r: Self)
        ensures
            r@ == (LazyTableView { name: name@, ..self@ }),
    {
        LazyTable { id: self.id, kind: self.kind, name }
    }

    /// Returns the stable session-local table id.
    pub fn id(&self) -> (r: u64)
        ensures
            r == self@.id,
    {
        self.id
    }

    /// Returns the lazy table kind.
    pub fn kind(&self) -> (r: LazyTableKind)
        ensures
            r == self@.kind,
    {
        self.kind
    }

    /// Returns the session-owned table name for this lazy table.
    pub fn name(&self) -> (r: &str)
        ensures
            r@ == self@.name,
    {
        self.name.as_str()
    }
}

/// Options for a bounded lazy-table preview.
#[derive(Debug, Clone, Copy, PartialEq, Eq, Structural)]
pub struct PreviewOptions {
    limit: usize,
    execution_profile_mode: ExecutionProfileMode,
}

impl PreviewOptions {
    /// The requested row limit.
    pub closed spec fn row_limit(self) -> usize {
        self.limit
    }

    /// The selected execution-profile mode.
    pub closed spec fn profile_mode(self) -> ExecutionProfileMode {
        self.execution_profile_mode
    }

    /// Creates preview options with detailed execution profiling disabled.
    pub fn new(limit: usize) -> (r: Self)
        ensures
            r.row_limit() == limit,
            r.profile_mode() == ExecutionProfileMode::Disabled,
    {
        PreviewOptions { limit, execution_profile_mode: ExecutionProfileMode::Disabled }
    }

    /// Selects whether the preview collects a detailed execution profile.
    pub fn with_execution_profile_mode(self, mode: ExecutionProfileMode) -> (r: Self)
        ensures
            r.row_limit() == self.row_limit(),
            r.profile_mode() == mode,
    {
        PreviewOptions { limit: self.limit, execution_profile_mode: mode }
    }

    /// Returns the requested preview row limit.
    pub fn limit(&self) -> (r: usize)
        ensures
            r == self.row_limit(),
    {
        self.limit
    }

    /// Returns the selected execution-profile mode.
    pub fn execution_profile_mode(&self) -> (r: ExecutionProfileMode)
        ensures
            r == self.profile_mode(),
    {
        self.execution_profile_mode
    }
}

/// What a rendered preview says.
pub struct TablePreviewView {
    pub text: Seq<char>,
    pub html: Seq<char>,
    pub phase_timings: Seq<PhaseTimingView>,
    pub execution_profile: Option<QueryExecutionProfileView>,
    pub operation_timeline: Option<OperationTimelineView>,
}

/// Rendered bounded preview of a lazy table.
#[derive(Debug, PartialEq, Eq)]
pub struct TablePreview {
    text: String,
    html: String,
    phase_timings: Vec<PhaseTimingReport>,
    execution_profile: Option<QueryExecutionProfile>,
    operation_timeline: Option<OperationTimeline>,
}

impl View for TablePreview {
    type V = TablePreviewView;

    closed spec fn view(&self) -> TablePreviewView {
        TablePreviewView {
            text: self.text@,
            html: self.html@,
            phase_timings: views(self.phase_timings@),
            execution_profile: opt_view(self.execution_profile),
            operation_timeline: opt_view(self.operation_timeline),
        }
    }
}

/// Timings that say of every preview phase that nothing was executed.
pub open spec fn unexecuted_preview_timings() -> Seq<PhaseTimingView> {
    Seq::new(
        preview_phase_names().len(),
        |i: int|
            untimed(
                preview_phase_names()[i],
                PhaseStatus::Unavailable(ReportReasonCode::NotExecuted),
            ),
    )
}

impl TablePreview {
    /// Creates a rendered lazy table preview that no execution stands behind.
    pub fn new(text: String, html: String) -> (r: Self)
        ensures
            r@ == (TablePreviewView {
                text: text@,
                html: html@,
                phase_timings: unexecuted_preview_timings(),
                execution_profile: None,
                operation_timeline: None,
            }),
    {
        let mut timings: Vec<PhaseTimingReport> = Vec::new();
        let mut i: usize = 0;
        assert(views(timings@) =~= unexecuted_preview_timings().take(0));
        while i < PREVIEW_PHASE_COUNT
            invariant
                i <= PREVIEW_PHASE_COUNT,
                views(timings@) == unexecuted_preview_timings().take(i as int),
            decreases PREVIEW_PHASE_COUNT - i,
        {
            let timing = PhaseTimingReport::unavailable(
                preview_phase_name(i),
                ReportReasonCode::NotExecuted,
            );
            proof {
                views_push(timings@, timing);
                assert(unexecuted_preview_timings().take(i + 1) =~= unexecuted_preview_timings().take(
                    i as int,
                ).push(timing@));
            }
            timings.push(timing);
            i += 1;
        }
        assert(unexecuted_preview_timings().take(7) =~= unexecuted_preview_timings());
        Self::from_execution(text, html, timings, None, None)
    }

    /// Creates the preview of an execution.
    pub fn from_execution(
        text: String,
        html: String,
        phase_timings: Vec<PhaseTimingReport>,
        execution_profile: Option<QueryExecutionProfile>,
        operation_timeline: Option<OperationTimeline>,
    ) -> (r: Self)
        ensures
            r@ == (TablePreviewView {
                text: text@,
                html: html@,
                phase_timings: views(phase_timings@),
                execution_profile: opt_view(execution_profile),
                operation_timeline: opt_view(operation_timeline),
            }),
    {
        TablePreview { text, html, phase_timings, execution_profile, operation_timeline }
    }

    /// Returns the plain text table preview.
    pub fn text(&self) -> (r: &str)
        ensures
            r@ == self@.text,
    {
        self.text.as_str()
    }

    /// Returns the HTML table preview.
    pub fn html(&self) -> (r: &str)
        ensures
            r@ == self@.html,
    {
        self.html.as_str()
    }

    /// Returns phase timings captured for this preview operation.
    pub fn phase_timings(&self) -> (r: &Vec<PhaseTimingReport>)
        ensures
            views(r@) == self@.phase_timings,
    {
        &self.phase_timings
    }

    /// Returns the detailed execution profile when collection was enabled.
    pub fn execution_profile(&self) -> (r: Option<&QueryExecutionProfile>)
        ensures
            match r {
                Some(p) => self@.execution_profile == Some(p@),
                None => self@.execution_profile is None,
            },
    {
        match &self.execution_profile {
            Some(p) => Some(p),
            None => None,
        }
    }

    /// Returns the timeline of the execution behind the preview.
    pub fn operation_timeline(&self) -> (r: Option<&OperationTimeline>)
        ensures
            match r {
                Some(t) => self@.operation_timeline == Some(t@),
                None => self@.operation_timeline is None,
            },
    {
        match &self.operation_timeline {
            Some(t) => Some(t),
            None => None,
        }
    }
}

/// What an output target says.
pub struct OutputTargetView {
    pub output_name: Seq<char>,
    pub target: TargetConfigView,
    pub run_mode: RunMode,
}

/// MSSQL output target selected from a lazy table.
#[derive(PartialEq, Eq)]
pub struct MssqlOutputTarget {
    output_name: String,
    target: MssqlTargetConfig,
    run_mode: RunMode,
}

impl View for MssqlOutputTarget {
    type V = OutputTargetView;

    closed spec fn view(&self) -> OutputTargetView {
        OutputTargetView {
            output_name: self.output_name@,
            target: self.target@,
            run_mode: self.run_mode,
        }
    }
}

impl Clone for MssqlOutputTarget {
    fn clone(&self) -> (r: Self)
        ensures
            r == *self,
    {
        MssqlOutputTarget {
            output_name: self.output_name.clone(),
            target: self.target.clone(),
            run_mode: self.run_mode,
        }
    }
}

/// The debug form of an output target.
pub open spec fn output_target_debug(target: OutputTargetView) -> Seq<char> {
    "MssqlOutputTarget { output_name: "@ + quoted_text(display_text(target.output_name))
        + ", target: "@ + target_debug(target.target) + ", run_mode: "@ + target.run_mode.name_of()
        + " }"@
}

impl MssqlOutputTarget {
    /// Creates an MSSQL output target request.
    pub fn new(output_name: &str, target: MssqlTargetConfig, run_mode: RunMode) -> (r: Self)
        ensures
            r@ == (OutputTargetView { output_name: output_name@, target: target@, run_mode }),
    {
        MssqlOutputTarget { output_name: output_name.to_owned(), target, run_mode }
    }

    /// Returns the selected output name.
    pub fn output_name(&self) -> (r: &str)
        ensures
            r@ == self@.output_name,
    {
        self.output_name.as_str()
    }

    /// Returns the SQL Server target config.
    pub fn target(&self) -> (r: &MssqlTargetConfig)
        ensures
            r@ == self@.target,
    {
        &self.target
    }

    /// Returns the requested run mode.
    pub fn run_mode(&self) -> (r: RunMode)
        ensures
            r == self@.run_mode,
    {
        self.run_mode
    }

    /// Returns the debug form; it shows no connection string.
    pub fn debug_text(&self) -> (r: String)
        ensures
            r@ == output_target_debug(self@),
    {
        let mut r = "MssqlOutputTarget { output_name: ".to_owned();
        let shown = sanitize_text_for_display(self.output_name.as_str());
        r.append(quoted(shown.as_str()).as_str());
        r.append(", target: ");
        r.append(self.target.debug_text().as_str());
        r.append(", run_mode: ");
        r.append(self.run_mode.as_str());
        r.append(" }");
        r
    }
}

/// What an output request says.
pub struct OutputWritePlanView {
    pub table: LazyTableView,
    pub target: OutputTargetView,
    pub schema_refusal: Option<Seq<char>>,
}

/// Planned output write request before schema planning or execution.
#[derive(PartialEq, Eq)]
pub struct OutputWritePlan {
    table: LazyTable,
    target: MssqlOutputTarget,
    schema_refusal: Option<String>,
}

impl View for OutputWritePlan {
    type V = OutputWritePlanView;

    closed spec fn view(&self) -> OutputWritePlanView {
        OutputWritePlanView {
            table: self.table@,
            target: self.target@,
            schema_refusal: opt_view(self.schema_refusal),
        }
    }
}

impl Clone for OutputWritePlan {
    fn clone(&self) -> (r: Self)
        ensures
            r == *self,
    {
        OutputWritePlan {
            table: self.table.clone(),
            target: self.target.clone(),
            schema_refusal: match &self.schema_refusal {
                Some(message) => Some(message.clone()),
                None => None,
            },
        }
    }
}

impl OutputWritePlan {
    /// Creates an output write request for a lazy table.
    pub fn new(table: LazyTable, target: MssqlOutputTarget) -> (r: Self)
        ensures
            r@ == (OutputWritePlanView { table: table@, target: target@, schema_refusal: None }),
    {
        OutputWritePlan { table, target, schema_refusal: None }
    }

    /// Notes that the columns of the table cannot be mapped to SQL Server, and why.
    pub fn with_schema_refusal(self, message: &str) -> (r: Self)
        ensures
            r@ == (OutputWritePlanView { schema_refusal: Some(message@), ..self@ }),
    {
        let mut r = self;
        r.schema_refusal = Some(message.to_owned());
        r
    }

    /// Returns why the columns of the table cannot be mapped to SQL Server, if they cannot.
    pub fn schema_refusal(&self) -> (r: Option<&str>)
        ensures
            match r {
                Some(message) => self@.schema_refusal == Some(message@),
                None => self@.schema_refusal is None,
            },
    {
        match &self.schema_refusal {
            Some(message) => Some(message.as_str()),
            None => None,
        }
    }

    /// Returns the selected lazy table.
    pub fn table(&self) -> (r: &LazyTable)
        ensures
            r@ == self@.table,
    {
        &self.table
    }

    /// Returns the selected MSSQL output target.
    pub fn target(&self) -> (r: &MssqlOutputTarget)
        ensures
            r@ == self@.target,
    {
        &self.target
    }
}

/// What a planned output says.
pub struct PlannedOutputView {
    pub request: OutputWritePlanView,
    pub resolved_target: ResolvedTargetView,
    pub output_plan: TargetOutputPlanView,
    pub phase_timings: Seq<PhaseTimingView>,
}

/// Planned MSSQL output request for one selected lazy table.
#[derive(PartialEq, Eq)]
pub struct PlannedMssqlOutput {
    request: OutputWritePlan,
    resolved_target: ResolvedMssqlTarget,
    output_plan: MssqlTargetOutputPlan,
    phase_timings: Vec<PhaseTimingReport>,
}

impl View for PlannedMssqlOutput {
    type V = PlannedOutputView;

    closed spec fn view(&self) -> PlannedOutputView {
        PlannedOutputView {
            request: self.request@,
            resolved_target: self.resolved_target@,
            output_plan: self.output_plan@,
            phase_timings: views(self.phase_timings@),
        }
    }
}

impl PlannedMssqlOutput {
    /// Collects what was planned for one output.
    pub fn new(
        request: OutputWritePlan,
        resolved_target: ResolvedMssqlTarget,
        output_plan: MssqlTargetOutputPlan,
        phase_timings: Vec<PhaseTimingReport>,
    ) -> (r: Self)
        ensures
            r@ == (PlannedOutputView {
                request: request@,
                resolved_target: resolved_target@,
                output_plan: output_plan@,
                phase_timings: views(phase_timings@),
            }),
    {
        PlannedMssqlOutput { request, resolved_target, output_plan, phase_timings }
    }

    /// Returns the original lazy-table output request.
    pub fn request(&self) -> (r: &OutputWritePlan)
        ensures
            r@ == self@.request,
    {
        &self.request
    }

    /// Returns the selected lazy table.
    pub fn table(&self) -> (r: &LazyTable)
        ensures
            r@ == self@.request.table,
    {
        self.request.table()
    }

    /// Returns the selected MSSQL target request.
    pub fn target(&self) -> (r: &MssqlOutputTarget)
        ensures
            r@ == self@.request.target,
    {
        self.request.target()
    }

    /// Returns the resolved SQL Server target, including the private connection config.
    pub fn resolved_target(&self) -> (r: &ResolvedMssqlTarget)
        ensures
            r@ == self@.resolved_target,
    {
        &self.resolved_target
    }

    /// Returns the complete SQL Server target output plan.
    pub fn output_plan(&self) -> (r: &MssqlTargetOutputPlan)
        ensures
            r@ == self@.output_plan,
    {
        &self.output_plan
    }

    /// Returns durable phase timings captured while planning this output.
    pub fn phase_timings(&self) -> (r: &Vec<PhaseTimingReport>)
        ensures
            views(r@) == self@.phase_timings,
    {
        &self.phase_timings
    }
}

} // verus!
