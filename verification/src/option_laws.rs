//! Which options are accepted, and what a call answers that refuses them.

use datafusion::prelude::SessionConfig;
use vstd::prelude::*;

use crate::dry_run::{
    MssqlDryRunOutputReport, MssqlDryRunWorkflowReport, dry_run_all_problem, is_dry_run_report,
    is_dry_run_workflow_report,
};
use crate::engine::{config_batch_size, config_target_partitions};
use crate::errors::{BatchPipelinePhase, DeltaFunnelError, ErrorView};
use crate::handles::{OutputWritePlanView, RunMode};
use crate::options::{
    DryRunScanSummaryMode, MssqlWriteBackend, QueryOptions, SessionOptionsView, config_follows,
    is_default_session_options, query_options_problem, reports, session_options_problem,
    workflow_options_problem,
};
use crate::output_plan::planning_problem;
use crate::planning_laws::{dry_runs_are_planned_all_or_none, names_are_distinct};
use crate::runtime::{dry_run_all_comes_to, dry_run_comes_to};
use crate::scan_options::{
    DeltaScanExecutionOptions, IntraFileRepartitioning, ParquetReaderBackend, ScanOptionsView,
    capacity_problem, optional_bytes_problem, optional_capacity_problem, sets,
};
use crate::session::SessionView;

verus! {

/// A check passes exactly where there is no problem, and answers with the problem where there is.
pub proof fn checks_report_their_problem(
    r: Result<(), DeltaFunnelError>,
    problem: Option<ErrorView>,
)
    ensures
        r is Ok ==> (reports(r, problem) <==> problem is None),
        r matches Err(e) ==> (reports(r, problem) <==> problem == Some(e@)),
{
}

/// A setting is made exactly where there is no problem with it; else the problem is the answer.
pub proof fn settings_are_made_or_refused(
    r: Result<DeltaScanExecutionOptions, DeltaFunnelError>,
    problem: Option<ErrorView>,
    options: ScanOptionsView,
)
    ensures
        sets(r, problem, options) ==> (r is Ok <==> problem is None),
        sets(r, problem, options) ==> (r matches Ok(set) ==> set@ == options),
        sets(r, problem, options) ==> (r matches Err(e) ==> problem == Some(e@)),
        problem is None ==> (r matches Ok(set) && set@ == options) ==> sets(r, problem, options),
{
}

/// A complaint about an option that is not positive.
pub open spec fn not_positive(option: Seq<char>) -> ErrorView {
    ErrorView::BatchPipeline {
        phase: BatchPipelinePhase::Configuration,
        option,
        message: option + " must be greater than zero"@,
    }
}

/// Query options are accepted unless one of them is zero; the number of partitions is complained
/// of before the size of the batches.
pub proof fn zero_query_options_are_refused(options: QueryOptions)
    ensures
        query_options_problem(options) is None <==> options.target_partitions != Some(0usize)
            && options.output_batch_size != Some(0usize),
        options.target_partitions == Some(0usize) ==> query_options_problem(options) == Some(
            not_positive("target_partitions"@),
        ),
        options.target_partitions != Some(0usize) && options.output_batch_size == Some(0usize)
            ==> query_options_problem(options) == Some(not_positive("output_batch_size"@)),
{
}

/// Outputs are written one at a time: one writer is accepted and no other number.
pub proof fn one_writer_is_accepted(writers: usize)
    ensures
        workflow_options_problem(writers) is None <==> writers == 1,
        writers == 0 ==> workflow_options_problem(writers) == Some(
            ErrorView::MssqlWorkflowPlanning {
                message: "max_parallel_outputs must be at least 1"@,
            },
        ),
        writers > 1 ==> workflow_options_problem(writers) == Some(
            ErrorView::MssqlWorkflowPlanning {
                message: "parallel MSSQL output writers are not supported"@,
            },
        ),
{
}

/// Session options are accepted where the query options and the number of writers are; the query
/// options are complained of first.
pub proof fn session_options_are_checked_part_by_part(options: SessionOptionsView)
    ensures
        session_options_problem(options) is None <==> query_options_problem(options.query_options)
            is None && options.mssql_workflow_options.parallel_outputs() == 1,
        query_options_problem(options.query_options) is Some ==> session_options_problem(options)
            == query_options_problem(options.query_options),
        query_options_problem(options.query_options) is None ==> session_options_problem(options)
            == workflow_options_problem(options.mssql_workflow_options.parallel_outputs()),
{
    one_writer_is_accepted(options.mssql_workflow_options.parallel_outputs());
}

/// Default options leave queries and scans to the engine, write one output at a time in bulk,
/// plan before they write, look at metadata alone, and name no connection; they are accepted.
pub proof fn default_options_are_accepted(options: SessionOptionsView)
    requires
        is_default_session_options(options),
    ensures
        options.query_options.target_partitions is None,
        options.query_options.output_batch_size is None,
        options.provider_scan_options.parquet_backend == ParquetReaderBackend::Direct,
        options.provider_scan_options.max_concurrent_file_reads_per_scan is None,
        options.provider_scan_options.max_concurrent_file_reads_per_partition is None,
        options.provider_scan_options.output_buffer_batches_per_partition is None,
        options.provider_scan_options.prefetch_files_per_partition is None,
        options.provider_scan_options.parquet_metadata_size_hint_bytes is None,
        options.provider_scan_options.parquet_full_file_read_threshold_bytes is None,
        options.provider_scan_options.experimental_intra_page_reads is None,
        options.provider_file_repartitioning == IntraFileRepartitioning::WhenBelowTarget,
        !options.provider_use_view_types,
        options.mssql_write_backend == MssqlWriteBackend::BulkLoad,
        options.mssql_workflow_options.parallel_outputs() == 1,
        options.validation_options.requires_planning(),
        options.validation_options.scan_summary() == DryRunScanSummaryMode::MetadataOnly,
        options.default_mssql_connection is None,
        session_options_problem(options) is None,
{
}

/// The engine is set up as the query options ask: with their number of partitions where they name
/// one, and with their size of batches, or else the engine's own.
pub proof fn engine_is_set_up_as_asked(config: SessionConfig, options: QueryOptions)
    ensures
        config_follows(config, options) ==> (options.target_partitions matches Some(n)
            ==> config_target_partitions(config) == n),
        config_follows(config, options) ==> (options.output_batch_size matches Some(n)
            ==> config_batch_size(config) == n),
        config_follows(config, options) ==> (options.output_batch_size is None
            ==> config_batch_size(config) == 8192),
{
}

/// A number of permits is accepted from one up to an eighth of the largest number.
pub proof fn permits_are_bounded(option: Seq<char>, n: usize)
    ensures
        capacity_problem(option, n) is None <==> 1 <= n && n <= usize::MAX / 8,
        n == 0 ==> capacity_problem(option, n) == Some(not_positive(option)),
        n > usize::MAX / 8 ==> capacity_problem(option, n) == Some(
            ErrorView::BatchPipeline {
                phase: BatchPipelinePhase::Configuration,
                option,
                message: option + " exceeds the largest number of permits"@,
            },
        ),
        optional_capacity_problem(option, None) is None,
        optional_capacity_problem(option, Some(n)) == capacity_problem(option, n),
{
}

/// A number of bytes is accepted unless it is zero; none is accepted.
pub proof fn byte_counts_are_positive(option: Seq<char>, n: usize)
    ensures
        optional_bytes_problem(option, None) is None,
        n > 0 ==> optional_bytes_problem(option, Some(n)) is None,
        n == 0 ==> optional_bytes_problem(option, Some(n)) == Some(not_positive(option)),
{
}

/// A blocking dry run comes to a report exactly where the request asks for a dry run and can be
/// planned, and the report is that of the request.
pub proof fn blocking_dry_run_comes_to_its_report(
    s: SessionView,
    request: OutputWritePlanView,
    r: Result<MssqlDryRunOutputReport, DeltaFunnelError>,
)
    requires
        dry_run_comes_to(s, request, r),
    ensures
        r is Ok <==> request.target.run_mode == RunMode::DryRun && planning_problem(s, request)
            is None,
        r matches Ok(report) ==> is_dry_run_report(s, request, report@),
        request.target.run_mode == RunMode::DryRun ==> (r matches Err(e) ==> planning_problem(
            s,
            request,
        ) == Some(e@)),
{
}

/// A blocking dry run of several outputs comes to a report exactly where their names differ and
/// each can be dry-run, and the report is that of the requests without any counters.
pub proof fn blocking_joint_dry_run_comes_to_its_report(
    s: SessionView,
    requests: Seq<OutputWritePlanView>,
    r: Result<MssqlDryRunWorkflowReport, DeltaFunnelError>,
)
    requires
        dry_run_all_comes_to(s, requests, r),
    ensures
        r is Ok <==> names_are_distinct(requests) && forall|i: int|
            0 <= i < requests.len() ==> dry_run_all_problem(s, #[trigger] requests[i]) is None,
        r matches Ok(report) ==> is_dry_run_workflow_report(s, requests, seq![], report),
{
    dry_runs_are_planned_all_or_none(s, requests);
}

} // verus!
