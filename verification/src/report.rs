//! Durable phase timings and execution profiles.

use vstd::prelude::*;

verus! {

/// Why a phase or a value has no ordinary result.
#[derive(Debug, Clone, Copy, PartialEq, Eq, Structural)]
pub enum ReportReasonCode {
    /// Nothing was executed for this report.
    NotExecuted,
    /// An earlier phase failed first.
    PriorFailure,
    /// The request was a dry run.
    DryRun,
    /// The needed metadata is not available.
    CapabilityUnavailable,
    /// Finding it out would cost too much.
    CostAvoidance,
}

/// How many rows an output has.
#[derive(Debug, Clone, Copy, PartialEq, Eq, Structural)]
pub enum RowCount {
    /// All rows were counted.
    Exact(u64),
    /// Nothing was counted.
    Unavailable,
}

impl RowCount {
    /// Nothing was counted.
    pub fn unavailable() -> (r: Self)
        ensures
            r == RowCount::Unavailable,
    {
        RowCount::Unavailable
    }
}

/// What became of one output.
#[derive(Debug, Clone, Copy, PartialEq, Eq, Structural)]
pub enum OutputStatus {
    /// The output was planned and not executed.
    DryRunPlanned,
}

impl OutputStatus {
    /// Status of an output that was planned and not executed.
    pub fn dry_run_planned() -> (r: Self)
        ensures
            r == OutputStatus::DryRunPlanned,
    {
        OutputStatus::DryRunPlanned
    }
}

/// What became of the validation of one output.
#[derive(Debug, Clone, Copy, PartialEq, Eq, Structural)]
pub enum ValidationStatus {
    /// Nothing was validated, on purpose.
    Skipped(ReportReasonCode),
}

impl ValidationStatus {
    /// Status of a validation that was left out on purpose.
    pub fn skipped(reason: ReportReasonCode) -> (r: Self)
        ensures
            r == ValidationStatus::Skipped(reason),
    {
        ValidationStatus::Skipped(reason)
    }
}

/// What became of a whole workflow.
#[derive(Debug, Clone, Copy, PartialEq, Eq, Structural)]
pub enum WorkflowStatus {
    /// Everything that was asked for was done.
    Success,
}

impl WorkflowStatus {
    /// Status of a workflow that did everything it was asked for.
    pub fn success() -> (r: Self)
        ensures
            r == WorkflowStatus::Success,
    {
        WorkflowStatus::Success
    }
}

/// How many files a source has.
#[derive(Debug, Clone, Copy, PartialEq, Eq, Structural)]
pub enum FileCount {
    /// All files were counted.
    Exact(u64),
    /// More files may follow.
    Estimated(u64),
    /// Nothing was counted.
    Unavailable,
}

impl FileCount {
    /// All files were counted.
    pub fn exact(files: u64) -> (r: Self)
        ensures
            r == FileCount::Exact(files),
    {
        FileCount::Exact(files)
    }

    /// More files may follow.
    pub fn estimated(files: u64) -> (r: Self)
        ensures
            r == FileCount::Estimated(files),
    {
        FileCount::Estimated(files)
    }

    /// Nothing was counted.
    pub fn unavailable() -> (r: Self)
        ensures
            r == FileCount::Unavailable,
    {
        FileCount::Unavailable
    }
}

/// Status of one reported phase.
#[derive(Debug, Clone, Copy, PartialEq, Eq, Structural)]
pub enum PhaseStatus {
    /// The phase ran to its end.
    Completed,
    /// The phase ran and failed.
    Failed,
    /// The phase was left out on purpose.
    Skipped(ReportReasonCode),
    /// The phase never started.
    NotStarted(ReportReasonCode),
    /// Nothing is known about the phase.
    Unavailable(ReportReasonCode),
}

impl PhaseStatus {
    /// Status of a phase that ran to its end.
    pub fn completed() -> (r: Self)
        ensures
            r == PhaseStatus::Completed,
    {
        PhaseStatus::Completed
    }

    /// Status of a phase that ran and failed.
    pub fn failed() -> (r: Self)
        ensures
            r == PhaseStatus::Failed,
    {
        PhaseStatus::Failed
    }

    /// Status of a phase that was left out on purpose.
    pub fn skipped(reason: ReportReasonCode) -> (r: Self)
        ensures
            r == PhaseStatus::Skipped(reason),
    {
        PhaseStatus::Skipped(reason)
    }

    /// Status of a phase that never started.
    pub fn not_started(reason: ReportReasonCode) -> (r: Self)
        ensures
            r == PhaseStatus::NotStarted(reason),
    {
        PhaseStatus::NotStarted(reason)
    }

    /// Status of a phase nothing is known about.
    pub fn unavailable(reason: ReportReasonCode) -> (r: Self)
        ensures
            r == PhaseStatus::Unavailable(reason),
    {
        PhaseStatus::Unavailable(reason)
    }

    /// Tells whether the phase never started.
    pub fn is_not_started(&self) -> (r: bool)
        ensures
            r == (*self is NotStarted),
    {
        matches!(self, PhaseStatus::NotStarted(_))
    }
}

/// What a phase timing says.
pub struct PhaseTimingView {
    pub phase_name: Seq<char>,
    pub status: PhaseStatus,
    pub elapsed_micros: Option<u64>,
}

/// Timing of one named phase.
#[derive(Debug, PartialEq, Eq)]
pub struct PhaseTimingReport {
    phase_name: String,
    status: PhaseStatus,
    elapsed_micros: Option<u64>,
}

impl View for PhaseTimingReport {
    type V = PhaseTimingView;

    closed spec fn view(&self) -> PhaseTimingView {
        PhaseTimingView {
            phase_name: self.phase_name@,
            status: self.status,
            elapsed_micros: self.elapsed_micros,
        }
    }
}

impl Clone for PhaseTimingReport {
    fn clone(&self) -> (r: Self)
        ensures
            r == *self,
    {
        PhaseTimingReport {
            phase_name: self.phase_name.clone(),
            status: self.status,
            elapsed_micros: self.elapsed_micros,
        }
    }
}

/// Timing of a completed phase.
pub open spec fn completed_timing(phase_name: Seq<char>, micros: u64) -> PhaseTimingView {
    PhaseTimingView { phase_name, status: PhaseStatus::Completed, elapsed_micros: Some(micros) }
}

/// Timing of a failed phase.
pub open spec fn failed_timing(phase_name: Seq<char>, micros: u64) -> PhaseTimingView {
    PhaseTimingView { phase_name, status: PhaseStatus::Failed, elapsed_micros: Some(micros) }
}

/// Timing of a phase that took no time, with the reason in its status.
pub open spec fn untimed(phase_name: Seq<char>, status: PhaseStatus) -> PhaseTimingView {
    PhaseTimingView { phase_name, status, elapsed_micros: None }
}

impl PhaseTimingReport {
    /// Timing of a phase that ran to its end.
    pub fn completed(phase_name: &str, micros: u64) -> (r: Self)
        ensures
            r@ == completed_timing(phase_name@, micros),
    {
        PhaseTimingReport {
            phase_name: phase_name.to_owned(),
            status: PhaseStatus::Completed,
            elapsed_micros: Some(micros),
        }
    }

    /// Timing of a phase that failed.
    pub fn failed(phase_name: &str, micros: u64) -> (r: Self)
        ensures
            r@ == failed_timing(phase_name@, micros),
    {
        PhaseTimingReport {
            phase_name: phase_name.to_owned(),
            status: PhaseStatus::Failed,
            elapsed_micros: Some(micros),
        }
    }

    /// Entry of a phase that was left out on purpose.
    pub fn skipped(phase_name: &str, reason: ReportReasonCode) -> (r: Self)
        ensures
            r@ == untimed(phase_name@, PhaseStatus::Skipped(reason)),
    {
        PhaseTimingReport {
            phase_name: phase_name.to_owned(),
            status: PhaseStatus::Skipped(reason),
            elapsed_micros: None,
        }
    }

    /// Entry of a phase that never started.
    pub fn not_started(phase_name: &str, reason: ReportReasonCode) -> (r: Self)
        ensures
            r@ == untimed(phase_name@, PhaseStatus::NotStarted(reason)),
    {
        PhaseTimingReport {
            phase_name: phase_name.to_owned(),
            status: PhaseStatus::NotStarted(reason),
            elapsed_micros: None,
        }
    }

    /// Entry of a phase nothing is known about.
    pub fn unavailable(phase_name: &str, reason: ReportReasonCode) -> (r: Self)
        ensures
            r@ == untimed(phase_name@, PhaseStatus::Unavailable(reason)),
    {
        PhaseTimingReport {
            phase_name: phase_name.to_owned(),
            status: PhaseStatus::Unavailable(reason),
            elapsed_micros: None,
        }
    }

    /// Returns the phase name.
    pub fn phase_name(&self) -> (r: &str)
        ensures
            r@ == self@.phase_name,
    {
        self.phase_name.as_str()
    }

    /// Returns the phase status.
    pub fn status(&self) -> (r: PhaseStatus)
        ensures
            r == self@.status,
    {
        self.status
    }

    /// Returns the elapsed time, where the phase ran.
    pub fn elapsed_micros(&self) -> (r: Option<u64>)
        ensures
            r == self@.elapsed_micros,
    {
        self.elapsed_micros
    }
}

/// The contents behind a list of viewable values.
pub open spec fn views<T: View>(s: Seq<T>) -> Seq<T::V> {
    Seq::new(s.len(), |i: int| s[i]@)
}

/// Viewing a list extended by one value extends the list of views.
pub proof fn views_push<T: View>(s: Seq<T>, t: T)
    ensures
        views(s.push(t)) == views(s).push(t@),
{
    assert(views(s.push(t)) =~= views(s).push(t@));
}

/// The content behind an optional viewable value.
pub open spec fn opt_view<T: View>(o: Option<T>) -> Option<T::V> {
    match o {
        Some(t) => Some(t@),
        None => None,
    }
}

/// Whether a query collects a detailed execution profile.
#[derive(Debug, Clone, Copy, PartialEq, Eq, Structural)]
pub enum ExecutionProfileMode {
    /// No profile is collected.
    Disabled,
    /// A detailed profile is collected.
    Detailed,
}

/// What a profiled query was run for.
#[derive(Debug, Clone, Copy, PartialEq, Eq, Structural)]
pub enum QueryExecutionScope {
    /// A bounded table preview.
    Preview,
    /// Materialization of a shared cache alias.
    WriteAllCacheAlias,
    /// One MSSQL output.
    MssqlOutput,
}

/// How a profiled query ended.
#[derive(Debug, Clone, Copy, PartialEq, Eq, Structural)]
pub enum QueryExecutionOutcome {
    /// Every stream reached its end.
    Success,
    /// A stream failed.
    Error,
    /// A stream was dropped before its end.
    Cancelled,
}

/// What is kept of one executed operator.
pub struct QueryOperatorView {
    pub name: Seq<char>,
    pub start_offset_micros: u64,
    pub duration_micros: u64,
}

/// One executed operator with its lifecycle inside the operation.
#[derive(Debug, PartialEq, Eq)]
pub struct QueryOperatorProfile {
    name: String,
    start_offset_micros: u64,
    duration_micros: u64,
}

impl View for QueryOperatorProfile {
    type V = QueryOperatorView;

    closed spec fn view(&self) -> QueryOperatorView {
        QueryOperatorView {
            name: self.name@,
            start_offset_micros: self.start_offset_micros,
            duration_micros: self.duration_micros,
        }
    }
}

impl Clone for QueryOperatorProfile {
    fn clone(&self) -> (r: Self)
        ensures
            r == *self,
    {
        QueryOperatorProfile {
            name: self.name.clone(),
            start_offset_micros: self.start_offset_micros,
            duration_micros: self.duration_micros,
        }
    }
}

impl QueryOperatorProfile {
    /// Records one operator's lifecycle.
    pub fn new(name: String, start_offset_micros: u64, duration_micros: u64) -> (r: Self)
        ensures
            r@ == (QueryOperatorView { name: name@, start_offset_micros, duration_micros }),
    {
        QueryOperatorProfile { name, start_offset_micros, duration_micros }
    }

    /// Returns the operator name.
    pub fn operator_name(&self) -> (r: &str)
        ensures
            r@ == self@.name,
    {
        self.name.as_str()
    }

    /// Returns when the operator started, counted from the operation's start.
    pub fn start_offset_micros(&self) -> (r: u64)
        ensures
            r == self@.start_offset_micros,
    {
        self.start_offset_micros
    }

    /// Returns how long the operator was alive.
    pub fn duration_micros(&self) -> (r: u64)
        ensures
            r == self@.duration_micros,
    {
        self.duration_micros
    }
}

/// What an execution profile says.
pub struct QueryExecutionProfileView {
    pub scope: QueryExecutionScope,
    pub outcome: QueryExecutionOutcome,
    pub row_limit: Option<u64>,
    pub operators: Seq<QueryOperatorView>,
}

/// Profile captured once when a query execution ends.
#[derive(Debug, PartialEq, Eq)]
pub struct QueryExecutionProfile {
    scope: QueryExecutionScope,
    outcome: QueryExecutionOutcome,
    row_limit: Option<u64>,
    operators: Vec<QueryOperatorProfile>,
}

impl View for QueryExecutionProfile {
    type V = QueryExecutionProfileView;

    closed spec fn view(&self) -> QueryExecutionProfileView {
        QueryExecutionProfileView {
            scope: self.scope,
            outcome: self.outcome,
            row_limit: self.row_limit,
            operators: views(self.operators@),
        }
    }
}

impl Clone for QueryExecutionProfile {
    fn clone(&self) -> (r: Self)
        ensures
            r@ == self@,
    {
        let mut operators: Vec<QueryOperatorProfile> = Vec::new();
        let mut i: usize = 0;
        while i < self.operators.len()
            invariant
                i <= self.operators.len(),
                operators@ == self.operators@.take(i as int),
            decreases self.operators.len() - i,
        {
            operators.push(self.operators[i].clone());
            i += 1;
            assert(self.operators@.take(i as int) =~= self.operators@.take(i - 1).push(
                self.operators@[i - 1],
            ));
        }
        assert(self.operators@.take(self.operators.len() as int) =~= self.operators@);
        QueryExecutionProfile {
            scope: self.scope,
            outcome: self.outcome,
            row_limit: self.row_limit,
            operators,
        }
    }
}

impl QueryExecutionProfile {
    /// Profile of one execution.
    pub fn new(
        scope: QueryExecutionScope,
        outcome: QueryExecutionOutcome,
        row_limit: Option<u64>,
        operators: Vec<QueryOperatorProfile>,
    ) -> (r: Self)
        ensures
            r@ == (QueryExecutionProfileView {
                scope,
                outcome,
                row_limit,
                operators: views(operators@),
            }),
    {
        QueryExecutionProfile { scope, outcome, row_limit, operators }
    }

    /// Profile of one bounded preview.
    pub fn preview(
        outcome: QueryExecutionOutcome,
        row_limit: u64,
        operators: Vec<QueryOperatorProfile>,
    ) -> (r: Self)
        ensures
            r@ == (QueryExecutionProfileView {
                scope: QueryExecutionScope::Preview,
                outcome,
                row_limit: Some(row_limit),
                operators: views(operators@),
            }),
    {
        Self::new(QueryExecutionScope::Preview, outcome, Some(row_limit), operators)
    }

    /// Returns what the query was run for.
    pub fn scope(&self) -> (r: QueryExecutionScope)
        ensures
            r == self@.scope,
    {
        self.scope
    }

    /// Returns how the execution ended.
    pub fn outcome(&self) -> (r: QueryExecutionOutcome)
        ensures
            r == self@.outcome,
    {
        self.outcome
    }

    /// Returns the row limit that was set on the query, if any.
    pub fn delta_funnel_row_limit(&self) -> (r: Option<u64>)
        ensures
            r == self@.row_limit,
    {
        self.row_limit
    }

    /// Returns the executed operators.
    pub fn operators(&self) -> (r: &Vec<QueryOperatorProfile>)
        ensures
            views(r@) == self@.operators,
    {
        &self.operators
    }

    /// Tells whether the execution ended before all rows were read.
    pub fn partial(&self) -> (r: bool)
        ensures
            r == (self@.outcome != QueryExecutionOutcome::Success),
    {
        self.outcome != QueryExecutionOutcome::Success
    }
}

} // verus!
