//! Errors of the session layer.

use vstd::prelude::*;
use vstd::string::StringExecFns;

use crate::report::{
    PhaseTimingReport, PhaseTimingView, QueryExecutionProfile, QueryExecutionProfileView, opt_view,
    views,
};
use crate::text::{display_text, sanitize_text_for_display};
use crate::timeline::{OperationTimeline, OperationTimelineView};

verus! {

/// Part of the SQL table workflow that an error belongs to.
#[derive(Debug, Clone, Copy, PartialEq, Eq, Structural)]
pub enum SqlTablePhase {
    /// The SQL text was rejected before planning.
    ValidateSql,
    /// The SQL text could not be planned.
    PlanSql,
    /// The alias of a derived table could not be registered.
    RegisterDerivedAlias,
}

/// Part of the batch pipeline that an error belongs to.
#[derive(Debug, Clone, Copy, PartialEq, Eq, Structural)]
pub enum BatchPipelinePhase {
    /// An option was rejected.
    Configuration,
    /// The handoff from the query engine could not be set up.
    HandoffSetup,
}

/// What the context of a failed preview says.
pub struct PreviewFailureContextView {
    pub failed_phase: Seq<char>,
    pub phase_timings: Seq<PhaseTimingView>,
    pub execution_profile: Option<QueryExecutionProfileView>,
    pub operation_timeline: OperationTimelineView,
}

/// Context retained when a preview fails.
#[derive(Debug)]
pub struct PreviewFailureContext {
    failed_phase: String,
    phase_timings: Vec<PhaseTimingReport>,
    execution_profile: Option<QueryExecutionProfile>,
    operation_timeline: OperationTimeline,
}

impl View for PreviewFailureContext {
    type V = PreviewFailureContextView;

    closed spec fn view(&self) -> PreviewFailureContextView {
        PreviewFailureContextView {
            failed_phase: self.failed_phase@,
            phase_timings: views(self.phase_timings@),
            execution_profile: opt_view(self.execution_profile),
            operation_timeline: self.operation_timeline@,
        }
    }
}

impl PreviewFailureContext {
    /// Collects what is retained of a failed preview.
    pub fn new(
        failed_phase: String,
        phase_timings: Vec<PhaseTimingReport>,
        execution_profile: Option<QueryExecutionProfile>,
        operation_timeline: OperationTimeline,
    ) -> (r: Self)
        ensures
            r@ == (PreviewFailureContextView {
                failed_phase: failed_phase@,
                phase_timings: views(phase_timings@),
                execution_profile: opt_view(execution_profile),
                operation_timeline: operation_timeline@,
            }),
    {
        PreviewFailureContext { failed_phase, phase_timings, execution_profile, operation_timeline }
    }

    /// Returns the name of the phase that failed.
    pub fn failed_phase(&self) -> (r: &str)
        ensures
            r@ == self@.failed_phase,
    {
        self.failed_phase.as_str()
    }

    /// Returns the timings of all preview phases.
    pub fn phase_timings(&self) -> (r: &Vec<PhaseTimingReport>)
        ensures
            views(r@) == self@.phase_timings,
    {
        &self.phase_timings
    }

    /// Returns the execution profile, where one was collected before the failure.
    pub fn execution_profile(&self) -> (r: Option<&QueryExecutionProfile>)
        ensures
            match r {
                Some(p) => self@.execution_profile == Some(p@),
                None => self@.execution_profile is None,
            },
    {
        match &self.execution_profile {
            Some(p) => Some(p),
            None => None,
        }
    }

    /// Returns the timeline of the failed preview.
    pub fn operation_timeline(&self) -> (r: &OperationTimeline)
        ensures
            r@ == self@.operation_timeline,
    {
        &self.operation_timeline
    }
}

/// What an error says.
#[allow(inconsistent_fields)]
pub enum ErrorView {
    Config { message: Seq<char> },
    BatchPipeline { phase: BatchPipelinePhase, option: Seq<char>, message: Seq<char> },
    SqlTable { phase: SqlTablePhase, message: Seq<char> },
    InvalidSourceName { name: Seq<char>, message: Seq<char> },
    DuplicateSourceName { name: Seq<char> },
    DeltaSourceLoad { name: Seq<char>, message: Seq<char> },
    DeltaProtocolCompatibility { name: Seq<char>, message: Seq<char> },
    MssqlWorkflowPlanning { message: Seq<char> },
    MissingMssqlConnection { output_name: Seq<char> },
    MssqlSchemaPlanning { output_name: Seq<char>, message: Seq<char> },
    MssqlLifecyclePlanning { output_name: Seq<char>, message: Seq<char> },
    PreviewFailed { context: PreviewFailureContextView, source: Box<ErrorView> },
}

/// Error of a session operation.
#[allow(inconsistent_fields)]
#[derive(Debug)]
pub enum DeltaFunnelError {
    /// A setting or a call was rejected.
    Config { message: String },
    /// The batch pipeline could not be configured or set up.
    BatchPipeline { phase: BatchPipelinePhase, option: &'static str, message: String },
    /// A SQL-derived table was rejected.
    SqlTable { phase: SqlTablePhase, message: String },
    /// An alias is not a usable unquoted identifier.
    InvalidSourceName { name: String, message: String },
    /// An alias is already taken.
    DuplicateSourceName { name: String },
    /// A Delta source could not be loaded.
    DeltaSourceLoad { name: String, message: String },
    /// A Delta source needs a protocol that is not supported.
    DeltaProtocolCompatibility { name: String, message: String },
    /// An MSSQL workflow could not be planned.
    MssqlWorkflowPlanning { message: String },
    /// An output has neither its own connection nor a session default.
    MissingMssqlConnection { output_name: String },
    /// The columns of an output cannot be mapped to SQL Server.
    MssqlSchemaPlanning { output_name: String, message: String },
    /// The load mode of an output is not supported.
    MssqlLifecyclePlanning { output_name: String, message: String },
    /// A preview failed in one of its phases.
    PreviewFailed { context: Box<PreviewFailureContext>, source: Box<DeltaFunnelError> },
}

impl View for DeltaFunnelError {
    type V = ErrorView;

    open spec fn view(&self) -> ErrorView {
        error_view(*self)
    }
}

/// The content of an error.
pub open spec fn error_view(e: DeltaFunnelError) -> ErrorView
    decreases e,
{
    match e {
        DeltaFunnelError::Config { message } => ErrorView::Config { message: message@ },
        DeltaFunnelError::BatchPipeline { phase, option, message } => ErrorView::BatchPipeline {
            phase,
            option: option@,
            message: message@,
        },
        DeltaFunnelError::SqlTable { phase, message } => ErrorView::SqlTable {
            phase,
            message: message@,
        },
        DeltaFunnelError::InvalidSourceName { name, message } => ErrorView::InvalidSourceName {
            name: name@,
            message: message@,
        },
        DeltaFunnelError::DuplicateSourceName { name } => ErrorView::DuplicateSourceName {
            name: name@,
        },
        DeltaFunnelError::DeltaSourceLoad { name, message } => ErrorView::DeltaSourceLoad {
            name: name@,
            message: message@,
        },
        DeltaFunnelError::DeltaProtocolCompatibility { name, message } => {
            ErrorView::DeltaProtocolCompatibility { name: name@, message: message@ }
        },
        DeltaFunnelError::MssqlWorkflowPlanning { message } => ErrorView::MssqlWorkflowPlanning {
            message: message@,
        },
        DeltaFunnelError::MissingMssqlConnection { output_name } => {
            ErrorView::MissingMssqlConnection { output_name: output_name@ }
        },
        DeltaFunnelError::MssqlSchemaPlanning { output_name, message } => {
            ErrorView::MssqlSchemaPlanning { output_name: output_name@, message: message@ }
        },
        DeltaFunnelError::MssqlLifecyclePlanning { output_name, message } => {
            ErrorView::MssqlLifecyclePlanning { output_name: output_name@, message: message@ }
        },
        DeltaFunnelError::PreviewFailed { context, source } => ErrorView::PreviewFailed {
            context: context@,
            source: Box::new(error_view(*source)),
        },
    }
}

/// The one line that tells a reader what went wrong.
pub open spec fn error_text(e: ErrorView) -> Seq<char>
    decreases e,
{
    match e {
        ErrorView::Config { message } => message,
        ErrorView::BatchPipeline { option, message, .. } => option + ": "@ + message,
        ErrorView::SqlTable { message, .. } => message,
        ErrorView::InvalidSourceName { name, message } => "invalid source name `"@ + display_text(
            name,
        ) + "`: "@ + message,
        ErrorView::DuplicateSourceName { name } => "duplicate source name `"@ + display_text(name)
            + "`"@,
        ErrorView::DeltaSourceLoad { name, message } => "Delta source `"@ + display_text(name)
            + "` failed: "@ + message,
        ErrorView::DeltaProtocolCompatibility { name, message } => "Delta source `"@
            + display_text(name) + "` is not supported: "@ + message,
        ErrorView::MssqlWorkflowPlanning { message } => message,
        ErrorView::MissingMssqlConnection { output_name } => "no MSSQL connection for output `"@
            + display_text(output_name) + "`"@,
        ErrorView::MssqlSchemaPlanning { output_name, message } => "output `"@ + display_text(
            output_name,
        ) + "`: "@ + message,
        ErrorView::MssqlLifecyclePlanning { output_name, message } => "output `"@ + display_text(
            output_name,
        ) + "`: "@ + message,
        ErrorView::PreviewFailed { context, source } => context.failed_phase + " failed: "@
            + error_text(*source),
    }
}

/// Puts a name shown for display between two fixed parts.
pub fn named_message(head: &str, name: &str, tail: &str) -> (r: String)
    ensures
        r@ == head@ + display_text(name@) + tail@,
{
    let mut r = head.to_owned();
    let shown = sanitize_text_for_display(name);
    r.append(shown.as_str());
    r.append(tail);
    r
}

/// Puts a name shown for display between two fixed parts and adds a tail.
fn quoted_message(head: &str, name: &str, middle: &str, tail: &str) -> (r: String)
    ensures
        r@ == head@ + display_text(name@) + middle@ + tail@,
{
    let mut r = named_message(head, name, middle);
    r.append(tail);
    r
}

impl DeltaFunnelError {
    /// Returns the one line that tells a reader what went wrong.
    pub fn display_text(&self) -> (r: String)
        ensures
            r@ == error_text(self@),
        decreases self,
    {
        match self {
            DeltaFunnelError::Config { message } => message.clone(),
            DeltaFunnelError::BatchPipeline { option, message, .. } => {
                let mut r = (*option).to_owned();
                r.append(": ");
                r.append(message.as_str());
                r
            },
            DeltaFunnelError::SqlTable { message, .. } => message.clone(),
            DeltaFunnelError::InvalidSourceName { name, message } => quoted_message(
                "invalid source name `",
                name.as_str(),
                "`: ",
                message.as_str(),
            ),
            DeltaFunnelError::DuplicateSourceName { name } => named_message(
                "duplicate source name `",
                name.as_str(),
                "`",
            ),
            DeltaFunnelError::DeltaSourceLoad { name, message } => quoted_message(
                "Delta source `",
                name.as_str(),
                "` failed: ",
                message.as_str(),
            ),
            DeltaFunnelError::DeltaProtocolCompatibility { name, message } => quoted_message(
                "Delta source `",
                name.as_str(),
                "` is not supported: ",
                message.as_str(),
            ),
            DeltaFunnelError::MssqlWorkflowPlanning { message } => message.clone(),
            DeltaFunnelError::MissingMssqlConnection { output_name } => named_message(
                "no MSSQL connection for output `",
                output_name.as_str(),
                "`",
            ),
            DeltaFunnelError::MssqlSchemaPlanning { output_name, message } => quoted_message(
                "output `",
                output_name.as_str(),
                "`: ",
                message.as_str(),
            ),
            DeltaFunnelError::MssqlLifecyclePlanning { output_name, message } => quoted_message(
                "output `",
                output_name.as_str(),
                "`: ",
                message.as_str(),
            ),
            DeltaFunnelError::PreviewFailed { context, source } => {
                let mut r = context.failed_phase().to_owned();
                r.append(" failed: ");
                let inner = source.display_text();
                r.append(inner.as_str());
                r
            },
        }
    }
}

/// Error of the SQL table workflow.
pub fn sql_table_error(phase: SqlTablePhase, message: String) -> (r: DeltaFunnelError)
    ensures
        r@ == (ErrorView::SqlTable { phase, message: message@ }),
{
    DeltaFunnelError::SqlTable { phase, message }
}

/// Planning error with a fixed message.
pub fn workflow_planning_error(message: &str) -> (r: DeltaFunnelError)
    ensures
        r@ == (ErrorView::MssqlWorkflowPlanning { message: message@ }),
{
    DeltaFunnelError::MssqlWorkflowPlanning { message: message.to_owned() }
}

/// The error for a table handle that the session does not know.
pub open spec fn unknown_lazy_table(name: Seq<char>) -> ErrorView {
    ErrorView::MssqlWorkflowPlanning {
        message: "lazy table `"@ + display_text(name) + "` is not registered in this session"@,
    }
}

/// Error for a table handle that the session does not know.
pub fn unknown_lazy_table_error(name: &str) -> (r: DeltaFunnelError)
    ensures
        r@ == unknown_lazy_table(name@),
{
    DeltaFunnelError::MssqlWorkflowPlanning {
        message: named_message("lazy table `", name, "` is not registered in this session"),
    }
}

/// The error for an active cache alias that the session does not know.
pub open spec fn unknown_cached_alias(alias: Seq<char>) -> ErrorView {
    ErrorView::MssqlWorkflowPlanning {
        message: "cached alias `"@ + display_text(alias) + "` is not registered in this session"@,
    }
}

/// Error for an active cache alias that the session does not know.
pub fn unknown_cached_alias_error(alias: &str) -> (r: DeltaFunnelError)
    ensures
        r@ == unknown_cached_alias(alias@),
{
    DeltaFunnelError::MssqlWorkflowPlanning {
        message: named_message("cached alias `", alias, "` is not registered in this session"),
    }
}

/// The error for an output whose stream cannot be set up on active caches.
pub open spec fn cached_output_stream_setup(output_name: Seq<char>, message: Seq<char>) -> ErrorView {
    ErrorView::MssqlWorkflowPlanning {
        message: "cached output stream setup failed for `"@ + display_text(output_name) + "`: "@
            + display_text(message),
    }
}

/// Error for an output whose stream cannot be set up on active caches.
pub fn cached_output_stream_setup_error(output_name: &str, message: &str) -> (r: DeltaFunnelError)
    ensures
        r@ == cached_output_stream_setup(output_name@, message@),
{
    let shown = sanitize_text_for_display(message);
    DeltaFunnelError::MssqlWorkflowPlanning {
        message: quoted_message(
            "cached output stream setup failed for `",
            output_name,
            "`: ",
            shown.as_str(),
        ),
    }
}

/// The error for one step of a scoped cache alias.
pub open spec fn scoped_cache_alias(phase: Seq<char>, alias: Seq<char>, message: Seq<char>) -> ErrorView {
    ErrorView::MssqlWorkflowPlanning {
        message: "scoped MSSQL cache alias "@ + phase + " failed for `"@ + display_text(alias)
            + "`: "@ + display_text(message),
    }
}

/// Error for one step of a scoped cache alias.
pub fn mssql_scoped_cache_alias_error(phase: &str, alias: &str, message: &str) -> (r:
    DeltaFunnelError)
    ensures
        r@ == scoped_cache_alias(phase@, alias@, message@),
{
    let shown = sanitize_text_for_display(message);
    let mut head = "scoped MSSQL cache alias ".to_owned();
    head.append(phase);
    head.append(" failed for `");
    DeltaFunnelError::MssqlWorkflowPlanning {
        message: quoted_message(head.as_str(), alias, "`: ", shown.as_str()),
    }
}

/// The error for a handoff step that the query engine refused.
pub open spec fn handoff_setup(option: Seq<char>, message: Seq<char>) -> ErrorView {
    ErrorView::BatchPipeline { phase: BatchPipelinePhase::HandoffSetup, option, message }
}

/// Error for a handoff step that the query engine refused.
pub fn datafusion_handoff_setup_error(option: &'static str, message: &str) -> (r: DeltaFunnelError)
    ensures
        r@ == handoff_setup(option@, message@),
{
    DeltaFunnelError::BatchPipeline {
        phase: BatchPipelinePhase::HandoffSetup,
        option,
        message: message.to_owned(),
    }
}

/// The error that keeps both a failed cached run and a failed restore.
pub open spec fn cache_error_with_restore(primary: ErrorView, restore: ErrorView) -> ErrorView {
    ErrorView::MssqlWorkflowPlanning {
        message: "write_all auto cache failed: "@ + error_text(primary)
            + "; also failed to restore cache aliases: "@ + error_text(restore),
    }
}

/// Error that keeps both a failed cached run and a failed restore.
pub fn cache_error_with_restore_error(primary: DeltaFunnelError, restore: DeltaFunnelError) -> (r:
    DeltaFunnelError)
    ensures
        r@ == cache_error_with_restore(primary@, restore@),
{
    let mut message = "write_all auto cache failed: ".to_owned();
    message.append(primary.display_text().as_str());
    message.append("; also failed to restore cache aliases: ");
    message.append(restore.display_text().as_str());
    DeltaFunnelError::MssqlWorkflowPlanning { message }
}

} // verus!
