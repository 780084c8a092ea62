//! Dry runs: outputs are planned and reported, and nothing is executed.

use vstd::prelude::*;
use vstd::string::StringExecFns;

use crate::clock::PhaseTimer;
use crate::errors::{DeltaFunnelError, ErrorView, workflow_planning_error};
use crate::execution::{DeltaProviderReadStatsSnapshot, ProviderSnapshotView};
use crate::handles::{
    LazyTable, LazyTableKind, LazyTableView, OutputWritePlan, OutputWritePlanView,
    PlannedMssqlOutput, PlannedOutputView, RunMode,
};
use crate::options::{DryRunScanSummaryMode, reports};
use crate::output_plan::{
    SQL_TARGET_PLANNING_PHASE, duplicate_name_problem, ensure_unique_write_all_output_names,
    is_planned_output, planning_problem, wrong_mode,
};
use crate::report::{
    OutputStatus, PhaseStatus, PhaseTimingReport, PhaseTimingView, ReportReasonCode, RowCount,
    ValidationStatus, WorkflowStatus, untimed, views,
};
use crate::session::{DeltaFunnelSession, SessionView, known_sql_text};
use crate::source_usage::{
    DeltaSourceReport, SourceReportView, SourceUsageStatus, all_files_planned, source_reports,
    source_usage,
};
use crate::target::{
    ConnectionView, LoadMode, MssqlTargetTable, ResolvedTargetView, connection_summary, quoted,
    quoted_text,
};
use crate::target_plan::MssqlDryRunOutputFieldReport;
use crate::text::{fnv1a_hash, hex_text, text_hash};

verus! {

/// Name of the phase in which the query runs.
pub const QUERY_EXECUTION_PHASE: &'static str = "query_execution";

/// Name of the phase in which batches are shaped.
pub const BATCH_SHAPING_PHASE: &'static str = "batch_shaping";

/// Name of the phase in which rows are written.
pub const SQL_WRITE_PHASE: &'static str = "sql_write";

/// Name of the phase in which the write is finished.
pub const FINALIZE_PHASE: &'static str = "finalize";

/// Name of the phase in which the write is validated.
pub const VALIDATION_PHASE: &'static str = "validation";

/// Hashes a SQL text, the same on every machine, so that it can be recognised without being
/// shown.
pub fn stable_sql_identity_hash(sql: &str) -> (r: String)
    ensures
        r@ == text_hash(sql@),
{
    let hash: u64 = fnv1a_hash(sql.as_bytes());
    hex_text(hash, 16)
}

/// Whether the SQL text of a table is known.
#[derive(Debug, Clone, Copy, PartialEq, Eq, Structural)]
pub enum MssqlDryRunSqlIdentityState {
    /// The table has a SQL text and its hash is reported.
    Present,
    /// The table has no SQL text.
    Absent,
    /// The table has a SQL text that is not known.
    Unavailable,
}

impl MssqlDryRunSqlIdentityState {
    /// The name of the state.
    pub open spec fn name_of(self) -> Seq<char> {
        match self {
            MssqlDryRunSqlIdentityState::Present => "present"@,
            MssqlDryRunSqlIdentityState::Absent => "absent"@,
            MssqlDryRunSqlIdentityState::Unavailable => "unavailable"@,
        }
    }

    /// Returns the name of the state.
    pub fn as_str(&self) -> (r: &'static str)
        ensures
            r@ == self.name_of(),
    {
        match self {
            MssqlDryRunSqlIdentityState::Present => "present",
            MssqlDryRunSqlIdentityState::Absent => "absent",
            MssqlDryRunSqlIdentityState::Unavailable => "unavailable",
        }
    }
}

/// What the identity of a SQL text says.
pub struct SqlIdentityView {
    pub state: MssqlDryRunSqlIdentityState,
    pub hash: Option<Seq<char>>,
    pub reason: Option<ReportReasonCode>,
}

/// Identity of the SQL text of a table; the text itself is not kept.
#[derive(Debug, PartialEq, Eq)]
pub struct MssqlDryRunSqlIdentityReport {
    state: MssqlDryRunSqlIdentityState,
    hash: Option<String>,
    reason: Option<ReportReasonCode>,
}

impl View for MssqlDryRunSqlIdentityReport {
    type V = SqlIdentityView;

    closed spec fn view(&self) -> SqlIdentityView {
        SqlIdentityView {
            state: self.state,
            hash: match self.hash {
                Some(hash) => Some(hash@),
                None => None,
            },
            reason: self.reason,
        }
    }
}

impl MssqlDryRunSqlIdentityReport {
    /// Identity of a table with a known SQL text.
    pub fn present(hash: String) -> (r: Self)
        ensures
            r@ == (SqlIdentityView {
                state: MssqlDryRunSqlIdentityState::Present,
                hash: Some(hash@),
                reason: None,
            }),
    {
        MssqlDryRunSqlIdentityReport {
            state: MssqlDryRunSqlIdentityState::Present,
            hash: Some(hash),
            reason: None,
        }
    }

    /// Identity of a table without a SQL text.
    pub fn absent() -> (r: Self)
        ensures
            r@ == (SqlIdentityView {
                state: MssqlDryRunSqlIdentityState::Absent,
                hash: None,
                reason: None,
            }),
    {
        MssqlDryRunSqlIdentityReport {
            state: MssqlDryRunSqlIdentityState::Absent,
            hash: None,
            reason: None,
        }
    }

    /// Identity of a table whose SQL text is not known.
    pub fn unavailable(reason: ReportReasonCode) -> (r: Self)
        ensures
            r@ == (SqlIdentityView {
                state: MssqlDryRunSqlIdentityState::Unavailable,
                hash: None,
                reason: Some(reason),
            }),
    {
        MssqlDryRunSqlIdentityReport {
            state: MssqlDryRunSqlIdentityState::Unavailable,
            hash: None,
            reason: Some(reason),
        }
    }

    /// Returns whether the SQL text is known.
    pub fn state(&self) -> (r: MssqlDryRunSqlIdentityState)
        ensures
            r == self@.state,
    {
        self.state
    }

    /// Returns the hash of the SQL text.
    pub fn hash(&self) -> (r: Option<&str>)
        ensures
            match r {
                Some(hash) => self@.hash == Some(hash@),
                None => self@.hash is None,
            },
    {
        match &self.hash {
            Some(hash) => Some(hash.as_str()),
            None => None,
        }
    }

    /// Returns why the hash is not available.
    pub fn reason(&self) -> (r: Option<ReportReasonCode>)
        ensures
            r == self@.reason,
    {
        self.reason
    }
}

/// The identity of the SQL text of a table.
pub open spec fn sql_identity(session: SessionView, table: LazyTableView) -> SqlIdentityView {
    if table.kind != LazyTableKind::DerivedSql {
        SqlIdentityView { state: MssqlDryRunSqlIdentityState::Absent, hash: None, reason: None }
    } else {
        match known_sql_text(session, table) {
            Some(text) => SqlIdentityView {
                state: MssqlDryRunSqlIdentityState::Present,
                hash: Some(text_hash(text)),
                reason: None,
            },
            None => SqlIdentityView {
                state: MssqlDryRunSqlIdentityState::Unavailable,
                hash: None,
                reason: Some(ReportReasonCode::CapabilityUnavailable),
            },
        }
    }
}

/// The phases that a dry run leaves out, in order.
pub open spec fn left_out_phases() -> Seq<Seq<char>> {
    seq![
        QUERY_EXECUTION_PHASE@,
        BATCH_SHAPING_PHASE@,
        SQL_WRITE_PHASE@,
        FINALIZE_PHASE@,
        VALIDATION_PHASE@,
    ]
}

/// The timings of a dry run: planning, and every later phase left out.
pub open spec fn dry_run_timings(planning: PhaseTimingView) -> Seq<PhaseTimingView> {
    seq![planning] + Seq::new(
        left_out_phases().len(),
        |i: int| untimed(left_out_phases()[i], PhaseStatus::Skipped(ReportReasonCode::DryRun)),
    )
}

/// Lists the timings of a dry run after its planning.
pub fn dry_run_output_phase_timings(planning_timing: PhaseTimingReport) -> (r: Vec<
    PhaseTimingReport,
>)
    ensures
        views(r@) == dry_run_timings(planning_timing@),
{
    let mut r: Vec<PhaseTimingReport> = Vec::new();
    r.push(planning_timing);
    r.push(PhaseTimingReport::skipped(QUERY_EXECUTION_PHASE, ReportReasonCode::DryRun));
    r.push(PhaseTimingReport::skipped(BATCH_SHAPING_PHASE, ReportReasonCode::DryRun));
    r.push(PhaseTimingReport::skipped(SQL_WRITE_PHASE, ReportReasonCode::DryRun));
    r.push(PhaseTimingReport::skipped(FINALIZE_PHASE, ReportReasonCode::DryRun));
    r.push(PhaseTimingReport::skipped(VALIDATION_PHASE, ReportReasonCode::DryRun));
    assert(views(r@) =~= dry_run_timings(planning_timing@));
    r
}

/// What one dry run says about a request in the wrong mode.
pub open spec fn dry_run_mode_problem(run_mode: RunMode) -> Option<ErrorView> {
    wrong_mode(
        run_mode,
        RunMode::DryRun,
        "dry_run_to_mssql requires RunMode::DryRun; use write_to_mssql for execution"@,
    )
}

/// What a dry run of several outputs says about a request in the wrong mode.
pub open spec fn dry_run_all_mode_problem(run_mode: RunMode) -> Option<ErrorView> {
    wrong_mode(
        run_mode,
        RunMode::DryRun,
        "dry_run_all_to_mssql requires RunMode::DryRun; use write_all for execution"@,
    )
}

/// Rejects a request that is to be executed.
pub fn ensure_dry_run_mode(run_mode: RunMode) -> (r: Result<(), DeltaFunnelError>)
    ensures
        reports(r, dry_run_mode_problem(run_mode)),
{
    match run_mode {
        RunMode::DryRun => Ok(()),
        RunMode::Execute => Err(
            workflow_planning_error(
                "dry_run_to_mssql requires RunMode::DryRun; use write_to_mssql for execution",
            ),
        ),
    }
}

/// Rejects a request among several that is to be executed.
pub fn ensure_write_all_dry_run_mode(run_mode: RunMode) -> (r: Result<(), DeltaFunnelError>)
    ensures
        reports(r, dry_run_all_mode_problem(run_mode)),
{
    match run_mode {
        RunMode::DryRun => Ok(()),
        RunMode::Execute => Err(
            workflow_planning_error(
                "dry_run_all_to_mssql requires RunMode::DryRun; use write_all for execution",
            ),
        ),
    }
}

/// What the report of a dry run says.
pub struct DryRunReportView {
    pub planned: PlannedOutputView,
    pub sql_identity: SqlIdentityView,
    pub source_usage_status: SourceUsageStatus,
    pub used_source_names: Seq<Seq<char>>,
    pub phase_timings: Seq<PhaseTimingView>,
}

/// Report of one dry-run output.
pub struct MssqlDryRunOutputReport {
    planned_output: PlannedMssqlOutput,
    sql_identity: MssqlDryRunSqlIdentityReport,
    source_usage_status: SourceUsageStatus,
    used_source_names: Vec<String>,
    phase_timings: Vec<PhaseTimingReport>,
}

impl View for MssqlDryRunOutputReport {
    type V = DryRunReportView;

    closed spec fn view(&self) -> DryRunReportView {
        DryRunReportView {
            planned: self.planned_output@,
            sql_identity: self.sql_identity@,
            source_usage_status: self.source_usage_status,
            used_source_names: views(self.used_source_names@),
            phase_timings: views(self.phase_timings@),
        }
    }
}

/// The debug form of a dry-run report. Of the connection it shows the summary, and of the SQL
/// text the hash.
pub open spec fn dry_run_debug(report: DryRunReportView) -> Seq<char> {
    "MssqlDryRunOutputReport { output_name: "@ + quoted_text(report.planned.resolved_target.output_name)
        + ", table: "@
        + quoted_text(report.planned.resolved_target.table.table) + ", load_mode: "@
        + report.planned.resolved_target.load_mode.name_of() + ", connection: "@ + quoted_text(
        connection_summary(report.planned.resolved_target.connection.display_label),
    ) + ", sql_identity: "@ + report.sql_identity.state.name_of() + ", sql_hash: "@ + (
    match report.sql_identity.hash {
        Some(hash) => quoted_text(hash),
        None => "None"@,
    }) + " }"@
}

impl MssqlDryRunOutputReport {
    /// Returns the planned output.
    pub fn planned_output(&self) -> (r: &PlannedMssqlOutput)
        ensures
            r@ == self@.planned,
    {
        &self.planned_output
    }

    /// Returns the name of the output.
    pub fn output_name(&self) -> (r: &str)
        ensures
            r@ == self@.planned.request.target.output_name,
    {
        self.planned_output.target().output_name()
    }

    /// Returns the mode of the request.
    pub fn run_mode(&self) -> (r: RunMode)
        ensures
            r == self@.planned.request.target.run_mode,
    {
        self.planned_output.target().run_mode()
    }

    /// Returns the id of the selected table.
    pub fn table_id(&self) -> (r: u64)
        ensures
            r == self@.planned.request.table.id,
    {
        self.planned_output.table().id()
    }

    /// Returns the kind of the selected table.
    pub fn table_kind(&self) -> (r: LazyTableKind)
        ensures
            r == self@.planned.request.table.kind,
    {
        self.planned_output.table().kind()
    }

    /// Returns the name of the selected table.
    pub fn table_name(&self) -> (r: &str)
        ensures
            r@ == self@.planned.request.table.name,
    {
        self.planned_output.table().name()
    }

    /// Returns the target table.
    pub fn target_table(&self) -> (r: &MssqlTargetTable)
        ensures
            r@ == self@.planned.output_plan.target_table,
    {
        self.planned_output.output_plan().target_table()
    }

    /// Returns the load mode.
    pub fn load_mode(&self) -> (r: LoadMode)
        ensures
            r == self@.planned.output_plan.load_mode,
    {
        self.planned_output.output_plan().load_mode()
    }

    /// Returns the planned columns.
    pub fn output_schema(&self) -> (r: &Vec<MssqlDryRunOutputFieldReport>)
        ensures
            views(r@) == self@.planned.output_plan.fields,
    {
        self.planned_output.output_plan().output_schema()
    }

    /// Returns the identity of the SQL text.
    pub fn sql_identity(&self) -> (r: &MssqlDryRunSqlIdentityReport)
        ensures
            r@ == self@.sql_identity,
    {
        &self.sql_identity
    }

    /// Returns whether the output reads sources.
    pub fn source_usage_status(&self) -> (r: SourceUsageStatus)
        ensures
            r == self@.source_usage_status,
    {
        self.source_usage_status
    }

    /// Returns the names of the sources that the output reads.
    pub fn used_source_names(&self) -> (r: &Vec<String>)
        ensures
            views(r@) == self@.used_source_names,
    {
        &self.used_source_names
    }

    /// Returns the timings of all phases.
    pub fn phase_timings(&self) -> (r: &Vec<PhaseTimingReport>)
        ensures
            views(r@) == self@.phase_timings,
    {
        &self.phase_timings
    }

    /// Returns what became of the output: it was planned.
    pub fn status(&self) -> (r: OutputStatus)
        ensures
            r == OutputStatus::DryRunPlanned,
    {
        OutputStatus::dry_run_planned()
    }

    /// Returns what became of the validation: a dry run has none.
    pub fn validation_status(&self) -> (r: ValidationStatus)
        ensures
            r == ValidationStatus::Skipped(ReportReasonCode::DryRun),
    {
        ValidationStatus::skipped(ReportReasonCode::DryRun)
    }

    /// Returns the number of rows: a dry run counts none.
    pub fn output_row_count(&self) -> (r: RowCount)
        ensures
            r == RowCount::Unavailable,
    {
        RowCount::unavailable()
    }

    /// Returns why no rows were counted.
    pub fn output_row_count_reason(&self) -> (r: Option<ReportReasonCode>)
        ensures
            r == Some(ReportReasonCode::NotExecuted),
    {
        Some(ReportReasonCode::NotExecuted)
    }

    /// Tells whether SQL Server was contacted: a dry run never does.
    pub fn sql_server_contacted(&self) -> (r: bool)
        ensures
            !r,
    {
        false
    }

    /// Tells whether rows were produced: a dry run never does.
    pub fn row_production_started(&self) -> (r: bool)
        ensures
            !r,
    {
        false
    }

    /// Tells whether a table was created or changed: a dry run never does.
    pub fn table_lifecycle_started(&self) -> (r: bool)
        ensures
            !r,
    {
        false
    }

    /// Tells whether a writer was started: a dry run never does.
    pub fn bulk_writer_started(&self) -> (r: bool)
        ensures
            !r,
    {
        false
    }

    /// Returns the debug form; it shows no connection string and no SQL text.
    pub fn debug_text(&self) -> (r: String)
        ensures
            r@ == dry_run_debug(self@),
    {
        let target = self.planned_output.resolved_target();
        let mut r = "MssqlDryRunOutputReport { output_name: ".to_owned();
        r.append(quoted(target.output_name()).as_str());
        r.append(", table: ");
        r.append(quoted(target.table().table()).as_str());
        r.append(", load_mode: ");
        r.append(target.load_mode().as_str());
        r.append(", connection: ");
        r.append(quoted(target.connection().summary()).as_str());
        r.append(", sql_identity: ");
        r.append(self.sql_identity.state().as_str());
        r.append(", sql_hash: ");
        match self.sql_identity.hash() {
            Some(hash) => {
                r.append(quoted(hash).as_str());
            },
            None => {
                r.append("None");
            },
        }
        r.append(" }");
        r
    }
}

/// A report is the one for a request.
pub open spec fn is_dry_run_report(
    session: SessionView,
    request: OutputWritePlanView,
    report: DryRunReportView,
) -> bool {
    &&& is_planned_output(session, request, report.planned)
    &&& report.sql_identity == sql_identity(session, request.table)
    &&& report.source_usage_status == source_usage(session, request.table).0
    &&& report.used_source_names == source_usage(session, request.table).1
    &&& report.phase_timings.len() == 6
    &&& report.phase_timings == dry_run_timings(report.phase_timings[0])
    &&& report.phase_timings[0].phase_name == SQL_TARGET_PLANNING_PHASE@
    &&& report.phase_timings[0].status == PhaseStatus::Completed
    &&& report.phase_timings[0].elapsed_micros is Some
}

/// What a dry run of several outputs says about one request.
pub open spec fn dry_run_all_problem(session: SessionView, request: OutputWritePlanView) -> Option<
    ErrorView,
> {
    match dry_run_all_mode_problem(request.target.run_mode) {
        Some(problem) => Some(problem),
        None => planning_problem(session, request),
    }
}

/// What a dry run says about the first of the first `n` requests that it rejects.
pub open spec fn first_dry_run_problem(
    session: SessionView,
    requests: Seq<OutputWritePlanView>,
    n: nat,
) -> Option<ErrorView>
    decreases n,
{
    if n == 0 {
        None
    } else {
        match first_dry_run_problem(session, requests, (n - 1) as nat) {
            Some(problem) => Some(problem),
            None => dry_run_all_problem(session, requests[n - 1]),
        }
    }
}

proof fn first_dry_run_problem_stays(
    session: SessionView,
    requests: Seq<OutputWritePlanView>,
    n: nat,
    m: nat,
)
    requires
        first_dry_run_problem(session, requests, n) is Some,
        n <= m,
    ensures
        first_dry_run_problem(session, requests, m) == first_dry_run_problem(session, requests, n),
    decreases m,
{
    if n < m {
        first_dry_run_problem_stays(session, requests, n, (m - 1) as nat);
    }
}

/// Why a dry run rejects some requests: names that are not unique are looked at first.
pub open spec fn dry_run_all_planning_problem(
    session: SessionView,
    requests: Seq<OutputWritePlanView>,
) -> Option<ErrorView> {
    match duplicate_name_problem(requests) {
        Some(problem) => Some(problem),
        None => first_dry_run_problem(session, requests, requests.len()),
    }
}

/// Some of the reported sources is used, and scans have planned all files of each used one.
pub open spec fn used_sources_are_exhausted(sources: Seq<SourceReportView>) -> bool {
    &&& exists|i: int|
        0 <= i < sources.len() && (#[trigger] sources[i]).usage_status == SourceUsageStatus::Used
    &&& forall|i: int|
        0 <= i < sources.len() && (#[trigger] sources[i]).usage_status == SourceUsageStatus::Used
            ==> all_files_planned(sources[i].provider_read_stats)
}

/// Report of a dry run of several outputs.
pub struct MssqlDryRunWorkflowReport {
    outputs: Vec<MssqlDryRunOutputReport>,
    sources: Vec<DeltaSourceReport>,
}

impl MssqlDryRunWorkflowReport {
    /// The reports of the outputs.
    pub closed spec fn output_views(self) -> Seq<DryRunReportView> {
        views(self.outputs@)
    }

    /// The reports of the registered sources.
    pub closed spec fn source_views(self) -> Seq<SourceReportView> {
        views(self.sources@)
    }

    /// Collects the reports of outputs and of sources.
    pub fn new(outputs: Vec<MssqlDryRunOutputReport>, sources: Vec<DeltaSourceReport>) -> (r: Self)
        ensures
            r.output_views() == views(outputs@),
            r.source_views() == views(sources@),
    {
        MssqlDryRunWorkflowReport { outputs, sources }
    }

    /// Returns the reports of the outputs, in order.
    pub fn outputs(&self) -> (r: &Vec<MssqlDryRunOutputReport>)
        ensures
            views(r@) == self.output_views(),
    {
        &self.outputs
    }

    /// Returns the reports of the registered sources, in order.
    pub fn sources(&self) -> (r: &Vec<DeltaSourceReport>)
        ensures
            views(r@) == self.source_views(),
    {
        &self.sources
    }

    /// Tells whether scans have planned all files of the sources that the outputs use.
    pub fn query_used_source_scan_metadata_exhausted(&self) -> (r: bool)
        ensures
            r == used_sources_are_exhausted(self.source_views()),
    {
        let ghost all = self.source_views();
        let mut any = false;
        let mut i: usize = 0;
        while i < self.sources.len()
            invariant
                i <= self.sources.len(),
                all == views(self.sources@),
                all == self.source_views(),
                any == exists|k: int|
                    0 <= k < i && (#[trigger] all[k]).usage_status == SourceUsageStatus::Used,
                forall|k: int|
                    0 <= k < i && (#[trigger] all[k]).usage_status == SourceUsageStatus::Used
                        ==> all_files_planned(all[k].provider_read_stats),
            decreases self.sources.len() - i,
        {
            assert(all[i as int] == self.sources@[i as int]@);
            if self.sources[i].usage_status() == SourceUsageStatus::Used {
                if !self.sources[i].scan_metadata_exhausted() {
                    return false;
                }
                any = true;
            }
            i += 1;
        }
        any
    }

    /// Returns the number of outputs.
    pub fn len(&self) -> (r: usize)
        ensures
            r == self.output_views().len(),
    {
        self.outputs.len()
    }

    /// Tells whether there is no output.
    pub fn is_empty(&self) -> (r: bool)
        ensures
            r == (self.output_views().len() == 0),
    {
        self.outputs.len() == 0
    }

    /// Returns what became of the workflow: every output was planned.
    pub fn status(&self) -> (r: WorkflowStatus)
        ensures
            r == WorkflowStatus::Success,
    {
        WorkflowStatus::success()
    }

    /// Returns the mode of the workflow.
    pub fn run_mode(&self) -> (r: RunMode)
        ensures
            r == RunMode::DryRun,
    {
        RunMode::DryRun
    }

    /// Tells whether SQL Server was contacted: a dry run never does.
    pub fn sql_server_contacted(&self) -> (r: bool)
        ensures
            !r,
    {
        false
    }

    /// Tells whether rows were produced: a dry run never does.
    pub fn row_production_started(&self) -> (r: bool)
        ensures
            !r,
    {
        false
    }

    /// Tells whether a table was created or changed: a dry run never does.
    pub fn table_lifecycle_started(&self) -> (r: bool)
        ensures
            !r,
    {
        false
    }

    /// Tells whether a writer was started: a dry run never does.
    pub fn bulk_writer_started(&self) -> (r: bool)
        ensures
            !r,
    {
        false
    }
}

/// A workflow report is the one for some requests and for the counters that were taken.
pub open spec fn is_dry_run_workflow_report(
    session: SessionView,
    requests: Seq<OutputWritePlanView>,
    stats: Seq<ProviderSnapshotView>,
    report: MssqlDryRunWorkflowReport,
) -> bool {
    &&& report.output_views().len() == requests.len()
    &&& forall|i: int|
        0 <= i < requests.len() ==> is_dry_run_report(
            session,
            requests[i],
            #[trigger] report.output_views()[i],
        )
    &&& report.source_views() == source_reports(session, requests, stats)
}

impl DeltaFunnelSession {
    /// Identifies the SQL text of a table without showing it.
    pub fn sql_identity_for_lazy_table(&self, table: &LazyTable) -> (r:
        MssqlDryRunSqlIdentityReport)
        ensures
            r@ == sql_identity(self@, table@),
    {
        if table.kind() != LazyTableKind::DerivedSql {
            return MssqlDryRunSqlIdentityReport::absent();
        }
        match self.sql_text_for_derived_table(table) {
            Ok(text) => MssqlDryRunSqlIdentityReport::present(stable_sql_identity_hash(text)),
            Err(_) => MssqlDryRunSqlIdentityReport::unavailable(
                ReportReasonCode::CapabilityUnavailable,
            ),
        }
    }

    fn plan_dry_run_output(&self, request: &OutputWritePlan) -> (r: Result<
        MssqlDryRunOutputReport,
        DeltaFunnelError,
    >)
        ensures
            match planning_problem(self@, request@) {
                None => r matches Ok(report) && is_dry_run_report(self@, request@, report@),
                Some(problem) => r matches Err(e) && e@ == problem,
            },
    {
        let timer = PhaseTimer::start(SQL_TARGET_PLANNING_PHASE);
        let planned_output = match self.plan_mssql_output(request) {
            Ok(planned) => planned,
            Err(e) => {
                return Err(e);
            },
        };
        let phase_timings = dry_run_output_phase_timings(timer.completed());
        let sql_identity = self.sql_identity_for_lazy_table(planned_output.table());
        let (source_usage_status, used_source_names) = match self.source_usage_for_lazy_table(
            planned_output.table(),
        ) {
            Ok(usage) => usage,
            Err(e) => {
                return Err(e);
            },
        };
        Ok(
            MssqlDryRunOutputReport {
                planned_output,
                sql_identity,
                source_usage_status,
                used_source_names,
                phase_timings,
            },
        )
    }

    /// Dry-runs one selected lazy table as an MSSQL output.
    ///
    /// Planning is that of a write; it stops before any row is produced or written.
    pub fn dry_run_to_mssql(&self, request: &OutputWritePlan) -> (r: Result<
        MssqlDryRunOutputReport,
        DeltaFunnelError,
    >)
        ensures
            match dry_run_mode_problem(request@.target.run_mode) {
                Some(problem) => r matches Err(e) && e@ == problem,
                None => match planning_problem(self@, request@) {
                    None => r matches Ok(report) && is_dry_run_report(self@, request@, report@),
                    Some(problem) => r matches Err(e) && e@ == problem,
                },
            },
    {
        match ensure_dry_run_mode(request.target().run_mode()) {
            Ok(_) => self.plan_dry_run_output(request),
            Err(e) => Err(e),
        }
    }

    /// Dry-runs the outputs of several requests, in order.
    pub fn plan_dry_run_all_outputs(&self, requests: &Vec<OutputWritePlan>) -> (r: Result<
        Vec<MssqlDryRunOutputReport>,
        DeltaFunnelError,
    >)
        ensures
            match dry_run_all_planning_problem(self@, views(requests@)) {
                Some(problem) => r matches Err(e) && e@ == problem,
                None => r matches Ok(outputs) && outputs@.len() == requests@.len() && (forall|i: int|
                    0 <= i < requests@.len() ==> is_dry_run_report(
                        self@,
                        requests@[i]@,
                        (#[trigger] outputs@[i])@,
                    )),
            },
    {
        let ghost all = views(requests@);
        match ensure_unique_write_all_output_names(requests) {
            Ok(_) => {},
            Err(e) => {
                return Err(e);
            },
        }
        let mut outputs: Vec<MssqlDryRunOutputReport> = Vec::new();
        let mut i: usize = 0;
        while i < requests.len()
            invariant
                i <= requests.len(),
                all == views(requests@),
                duplicate_name_problem(all) is None,
                first_dry_run_problem(self@, all, i as nat) is None,
                outputs@.len() == i,
                forall|k: int|
                    0 <= k < i ==> is_dry_run_report(
                        self@,
                        requests@[k]@,
                        (#[trigger] outputs@[k])@,
                    ),
            decreases requests.len() - i,
        {
            let request = &requests[i];
            assert(all[i as int] == request@);
            match ensure_write_all_dry_run_mode(request.target().run_mode()) {
                Ok(_) => {},
                Err(e) => {
                    proof {
                        first_dry_run_problem_stays(self@, all, (i + 1) as nat, all.len());
                    }
                    return Err(e);
                },
            }
            match self.plan_dry_run_output(request) {
                Ok(output) => {
                    outputs.push(output);
                },
                Err(e) => {
                    proof {
                        first_dry_run_problem_stays(self@, all, (i + 1) as nat, all.len());
                    }
                    return Err(e);
                },
            }
            i += 1;
        }
        Ok(outputs)
    }

    /// Dry-runs multiple selected lazy tables as one MSSQL output workflow.
    ///
    /// Each output is planned in order; it stops before any cache, row or write.
    pub fn dry_run_all_to_mssql(&self, requests: &Vec<OutputWritePlan>) -> (r: Result<
        MssqlDryRunWorkflowReport,
        DeltaFunnelError,
    >)
        ensures
            match dry_run_all_planning_problem(self@, views(requests@)) {
                Some(problem) => r matches Err(e) && e@ == problem,
                None => r matches Ok(report) && is_dry_run_workflow_report(
                    self@,
                    views(requests@),
                    seq![],
                    report,
                ),
            },
    {
        let stats: Vec<DeltaProviderReadStatsSnapshot> = Vec::new();
        assert(views(stats@) =~= seq![]);
        self.dry_run_all_with_provider_stats(requests, &stats)
    }

    /// Dry-runs multiple selected lazy tables and reports the counters that were taken of their
    /// scans.
    fn dry_run_all_with_provider_stats(
        &self,
        requests: &Vec<OutputWritePlan>,
        stats: &Vec<DeltaProviderReadStatsSnapshot>,
    ) -> (r: Result<MssqlDryRunWorkflowReport, DeltaFunnelError>)
        ensures
            match dry_run_all_planning_problem(self@, views(requests@)) {
                Some(problem) => r matches Err(e) && e@ == problem,
                None => r matches Ok(report) && is_dry_run_workflow_report(
                    self@,
                    views(requests@),
                    views(stats@),
                    report,
                ),
            },
    {
        let outputs = match self.plan_dry_run_all_outputs(requests) {
            Ok(outputs) => outputs,
            Err(e) => {
                return Err(e);
            },
        };
        let sources = self.source_reports_for_outputs_with_provider_stats(requests, stats);
        let report = MssqlDryRunWorkflowReport::new(outputs, sources);
        proof {
            let all = views(requests@);
            assert forall|i: int| 0 <= i < all.len() implies is_dry_run_report(
                self@,
                all[i],
                #[trigger] report.output_views()[i],
            ) by {
                assert(report.output_views()[i] == outputs@[i]@);
            }
        }
        Ok(report)
    }

    /// Dry-runs multiple selected lazy tables and honors the scan-summary option.
    ///
    /// `scanned` is what planning the execution of the outputs gave: the counters of their
    /// scans, or why there are none. It is looked at only once every output is planned, and
    /// only where the session asks for exhausted scan metadata.
    pub fn dry_run_all_to_mssql_with_scan_summary(
        &self,
        requests: &Vec<OutputWritePlan>,
        scanned: Result<Vec<DeltaProviderReadStatsSnapshot>, DeltaFunnelError>,
    ) -> (r: Result<MssqlDryRunWorkflowReport, DeltaFunnelError>)
        ensures
            match dry_run_all_planning_problem(self@, views(requests@)) {
                Some(problem) => r matches Err(e) && e@ == problem,
                None => match self@.options.validation_options.scan_summary() {
                    DryRunScanSummaryMode::MetadataOnly => r matches Ok(report)
                        && is_dry_run_workflow_report(self@, views(requests@), seq![], report),
                    DryRunScanSummaryMode::ExhaustScanMetadata => match scanned {
                        Ok(stats) => r matches Ok(report) && is_dry_run_workflow_report(
                            self@,
                            views(requests@),
                            views(stats@),
                            report,
                        ),
                        Err(e) => r matches Err(f) && f@ == e@,
                    },
                },
            },
    {
        let planned = self.dry_run_all_to_mssql(requests);
        if planned.is_err() || !self.dry_run_exhausts_scan_metadata() {
            return planned;
        }
        match scanned {
            Ok(stats) => self.dry_run_all_with_provider_stats(requests, &stats),
            Err(e) => Err(e),
        }
    }

    /// Tells whether a dry run of several outputs also plans their execution, to learn about
    /// the scans of their sources.
    pub fn dry_run_exhausts_scan_metadata(&self) -> (r: bool)
        ensures
            r == (self@.options.validation_options.scan_summary()
                == DryRunScanSummaryMode::ExhaustScanMetadata),
    {
        self.options().validation_options().dry_run_scan_summary_mode()
            == DryRunScanSummaryMode::ExhaustScanMetadata
    }
}

/// A dry run of one request plans exactly what a dry run of that request among others does,
/// and rejects it for the same reason, the wording of the mode check apart.
pub proof fn single_and_joint_dry_runs_agree(session: SessionView, request: OutputWritePlanView)
    requires
        request.target.run_mode == RunMode::DryRun,
    ensures
        dry_run_all_planning_problem(session, seq![request]) == planning_problem(session, request),
        dry_run_mode_problem(request.target.run_mode) is None,
{
    reveal_with_fuel(first_dry_run_problem, 2);
    reveal_with_fuel(crate::output_plan::first_repeat, 2);
    assert(seq![request][0] == request);
}

/// Where scans are not planned, the scan metadata of no used source counts as exhausted.
pub proof fn unplanned_scans_are_not_exhausted(
    session: SessionView,
    requests: Seq<OutputWritePlanView>,
    report: MssqlDryRunWorkflowReport,
)
    requires
        is_dry_run_workflow_report(session, requests, seq![], report),
    ensures
        !used_sources_are_exhausted(report.source_views()),
{
    let sources = report.source_views();
    assert forall|i: int| 0 <= i < sources.len() implies !all_files_planned(
        (#[trigger] sources[i]).provider_read_stats,
    ) by {
        assert(sources[i] == source_reports(session, requests, seq![])[i]);
    }
}

/// The debug form of a dry-run report says nothing of the connection string.
pub proof fn dry_run_debug_hides_connection_string(report: DryRunReportView, other: Seq<char>)
    ensures
        dry_run_debug(report) == dry_run_debug(
            DryRunReportView {
                planned: PlannedOutputView {
                    resolved_target: ResolvedTargetView {
                        connection: ConnectionView {
                            connection_string: other,
                            ..report.planned.resolved_target.connection
                        },
                        ..report.planned.resolved_target
                    },
                    ..report.planned
                },
                ..report
            },
        ),
{
}

/// A dry run reports six phases: planning ran, and none of the phases that read, write or
/// validate did.
pub proof fn dry_run_executes_nothing(
    session: SessionView,
    request: OutputWritePlanView,
    report: DryRunReportView,
    i: int,
)
    requires
        is_dry_run_report(session, request, report),
        1 <= i < 6,
    ensures
        report.phase_timings[i].phase_name == left_out_phases()[i - 1],
        report.phase_timings[i].status == PhaseStatus::Skipped(ReportReasonCode::DryRun),
        report.phase_timings[i].elapsed_micros is None,
{
    assert(report.phase_timings[i] == dry_run_timings(report.phase_timings[0])[i]);
}

} // verus!
