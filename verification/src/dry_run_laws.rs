//! What a dry run reports, said of the session and the request.

use vstd::prelude::*;
use vstd::utf8::encode_utf8;

use crate::dry_run::{
    DryRunReportView, MssqlDryRunSqlIdentityState, MssqlDryRunWorkflowReport, dry_run_timings,
    is_dry_run_report, is_dry_run_workflow_report, sql_identity, used_sources_are_exhausted,
};
use crate::execution::ProviderSnapshotView;
use crate::handles::{LazyTableKind, LazyTableView, OutputWritePlanView};
use crate::lineage_laws::{
    alias_handle_stands_for_the_alias, is_held, only_held_tables_are_known,
    pending_handle_stands_for_the_table,
};
use crate::output_plan::is_planned_output;
use crate::planning_laws::{has_the_columns, planned_output_keeps_the_request};
use crate::reading_laws::usage_lists_the_read_sources;
use crate::registry::SourceView;
use crate::report::{PhaseStatus, PhaseTimingView, ReportReasonCode};
use crate::session::{SessionView, known_schema};
use crate::session_laws::well_formed;
use crate::source_usage::{
    SourceReportView, SourceUsageStatus, source_reports, table_reads, usage_is_known,
};
use crate::text::{fnv1a, text_hash};
use crate::text_laws::{hex_form_stands_for_the_number, hex_value};

verus! {

/// The identity of a SQL text is its hash, as sixteen hexadecimal digits.
pub proof fn text_is_identified_by_its_hash(text: Seq<char>)
    ensures
        text_hash(text).len() == 16,
        hex_value(text_hash(text)) == fnv1a(encode_utf8(text)),
{
    hex_form_stands_for_the_number(fnv1a(encode_utf8(text)));
}

/// A source has no SQL text and so no identity.
pub proof fn source_has_no_sql_identity(s: SessionView, table: LazyTableView)
    requires
        table.kind == LazyTableKind::DeltaSource,
    ensures
        sql_identity(s, table).state == MssqlDryRunSqlIdentityState::Absent,
        sql_identity(s, table).hash is None,
        sql_identity(s, table).reason is None,
{
}

/// A registered alias is identified by the hash of its own text.
pub proof fn alias_is_identified_by_its_text(s: SessionView, table: LazyTableView, k: int)
    requires
        well_formed(s),
        0 <= k < s.derived.len(),
        table.kind == LazyTableKind::DerivedSql,
        table.id == s.derived[k].table.id,
    ensures
        sql_identity(s, table).state == MssqlDryRunSqlIdentityState::Present,
        sql_identity(s, table).hash == Some(text_hash(s.derived[k].sql_text)),
        sql_identity(s, table).reason is None,
{
    alias_handle_stands_for_the_alias(s, table, k);
}

/// A pending table is identified by the hash of its own text.
pub proof fn pending_table_is_identified_by_its_text(s: SessionView, table: LazyTableView, k: int)
    requires
        well_formed(s),
        0 <= k < s.pending.len(),
        table.kind == LazyTableKind::DerivedSql,
        table.id == s.pending[k].table.id,
    ensures
        sql_identity(s, table).state == MssqlDryRunSqlIdentityState::Present,
        sql_identity(s, table).hash == Some(text_hash(s.pending[k].sql_text)),
        sql_identity(s, table).reason is None,
{
    pending_handle_stands_for_the_table(s, table, k);
}

/// A derived table that the session does not hold has an identity that cannot be told.
pub proof fn unknown_table_has_no_identity(s: SessionView, table: LazyTableView)
    requires
        table.kind == LazyTableKind::DerivedSql,
        !is_held(s, table),
    ensures
        sql_identity(s, table).state == MssqlDryRunSqlIdentityState::Unavailable,
        sql_identity(s, table).hash is None,
        sql_identity(s, table).reason == Some(ReportReasonCode::CapabilityUnavailable),
{
    only_held_tables_are_known(s, table);
}

/// A phase of a dry run that is left out.
pub open spec fn is_left_out(timing: PhaseTimingView, name: Seq<char>) -> bool {
    &&& timing.phase_name == name
    &&& timing.status == PhaseStatus::Skipped(ReportReasonCode::DryRun)
    &&& timing.elapsed_micros is None
}

/// A dry run times its planning first and leaves the five other phases out, in order.
pub proof fn dry_run_times_planning_alone(planning: PhaseTimingView)
    ensures
        dry_run_timings(planning).len() == 6,
        dry_run_timings(planning)[0] == planning,
        is_left_out(dry_run_timings(planning)[1], "query_execution"@),
        is_left_out(dry_run_timings(planning)[2], "batch_shaping"@),
        is_left_out(dry_run_timings(planning)[3], "sql_write"@),
        is_left_out(dry_run_timings(planning)[4], "finalize"@),
        is_left_out(dry_run_timings(planning)[5], "validation"@),
{
}

/// The report of a dry run holds the plan of the request, what identifies the table's text, and
/// the sources that the table reads, by name and in the order of the session.
pub proof fn dry_run_reports_the_request(
    s: SessionView,
    request: OutputWritePlanView,
    report: DryRunReportView,
)
    requires
        is_dry_run_report(s, request, report),
    ensures
        is_planned_output(s, request, report.planned),
        report.planned.request == request,
        has_the_columns(report.planned.output_plan, known_schema(s, request.table)->0),
        report.planned.output_plan.target_table == request.target.target.table,
        report.planned.output_plan.load_mode == request.target.target.load_mode,
        report.planned.resolved_target.output_name == request.target.output_name,
        report.sql_identity == sql_identity(s, request.table),
        usage_is_known(s, request.table) ==> report.used_source_names == s.sources.filter(
            |source: SourceView| table_reads(s, request.table, source.table.id),
        ).map_values(|source: SourceView| source.table.name),
        !usage_is_known(s, request.table) ==> report.used_source_names == Seq::<
            Seq<char>,
        >::empty() && report.source_usage_status == SourceUsageStatus::Unknown,
        usage_is_known(s, request.table) ==> report.source_usage_status == (
        if report.used_source_names.len() > 0 {
            SourceUsageStatus::Used
        } else {
            SourceUsageStatus::NotUsed
        }),
        report.phase_timings.len() == 6,
        report.phase_timings[0].phase_name == "sql_target_planning"@,
        report.phase_timings[0].status == PhaseStatus::Completed,
        report.phase_timings[0].elapsed_micros is Some,
        is_left_out(report.phase_timings[1], "query_execution"@),
        is_left_out(report.phase_timings[2], "batch_shaping"@),
        is_left_out(report.phase_timings[3], "sql_write"@),
        is_left_out(report.phase_timings[4], "finalize"@),
        is_left_out(report.phase_timings[5], "validation"@),
{
    planned_output_keeps_the_request(s, request, report.planned);
    usage_lists_the_read_sources(s, request.table);
    dry_run_times_planning_alone(report.phase_timings[0]);
}

/// A dry run of several outputs reports each output at its place, and every source.
pub proof fn joint_dry_run_reports_every_request(
    s: SessionView,
    requests: Seq<OutputWritePlanView>,
    stats: Seq<ProviderSnapshotView>,
    report: MssqlDryRunWorkflowReport,
    i: int,
)
    requires
        is_dry_run_workflow_report(s, requests, stats, report),
        0 <= i < requests.len(),
    ensures
        report.output_views().len() == requests.len(),
        is_dry_run_report(s, requests[i], report.output_views()[i]),
        report.source_views().len() == s.sources.len(),
        report.source_views() == source_reports(s, requests, stats),
{
}

/// The planning of all scans was exhausted exactly where some source is used and every used
/// source was read with its planning exhausted.
pub proof fn exhausted_means_every_used_source(sources: Seq<SourceReportView>)
    ensures
        used_sources_are_exhausted(sources) ==> exists|i: int|
            0 <= i < sources.len() && (#[trigger] sources[i]).usage_status
                == SourceUsageStatus::Used,
        forall|i: int|
            0 <= i < sources.len() && (#[trigger] sources[i]).usage_status
                == SourceUsageStatus::Used && used_sources_are_exhausted(sources) ==> (
            sources[i].provider_read_stats matches Some(stats) && stats.scan_metadata_exhausted
                == Some(true)),
        (exists|i: int|
            0 <= i < sources.len() && (#[trigger] sources[i]).usage_status
                == SourceUsageStatus::Used) && (forall|i: int|
            0 <= i < sources.len() && (#[trigger] sources[i]).usage_status
                == SourceUsageStatus::Used ==> (sources[i].provider_read_stats matches Some(stats)
                && stats.scan_metadata_exhausted == Some(true))) ==> used_sources_are_exhausted(
            sources,
        ),
{
}

} // verus!
