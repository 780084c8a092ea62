//! What the models keep of the values they stand for.

use vstd::prelude::*;

use crate::cache_plan::{
    DecisionView, MssqlCoveredCacheAlias, MssqlNoCacheReason, MssqlOutputCacheDecision,
};
use crate::dry_run::MssqlDryRunSqlIdentityState;
use crate::engine::text_result;
use crate::errors::{DeltaFunnelError, ErrorView};
use crate::execution::DeltaProviderReadStatsSnapshot;
use crate::handles::RunMode;
use crate::html::{PreviewColumn, rows_view};
use crate::lineage::{
    DependencyView, DerivedTableDependency, DerivedTableLineage, LineageView,
};
use crate::registry::DeltaProtocolReport;
use crate::report::{opt_view, views};
use crate::routes::{MssqlCachedOutputStreamRoute, RouteView};
use crate::runtime::{nested_runtime, runtime_not_created};
use crate::workflow::{
    MssqlOutputWriteStatus, MssqlWorkflowWriteReport, MssqlWriteReport, WriteReportView,
    WriteStatusView, failure_of, outcome_view, written_view,
};
use crate::write_all::{CacheReportView, WriteAllCacheReport};

verus! {

/// A list is seen item by item, in order.
pub proof fn lists_are_seen_item_by_item<T: View>(s: Seq<T>)
    ensures
        views(s).len() == s.len(),
        forall|i: int| 0 <= i < s.len() ==> #[trigger] views(s)[i] == s[i]@,
{
}

/// An optional value is seen where it is there.
pub proof fn optional_values_are_seen<T: View>(value: T)
    ensures
        opt_view(Some(value)) == Some(value@),
        opt_view(None::<T>) is None,
{
}

/// Rows are seen in order, each with all its values in order.
pub proof fn rows_are_seen_value_by_value(rows: Seq<Vec<String>>)
    ensures
        rows_view(rows).len() == rows.len(),
        forall|i: int|
            0 <= i < rows.len() ==> {
                let row = #[trigger] rows_view(rows)[i];
                &&& row.len() == rows[i]@.len()
                &&& forall|c: int| 0 <= c < row.len() ==> #[trigger] row[c] == rows[i]@[c]@
            },
{
}

/// The outcome of a write is seen with all that its report says, or with its error.
pub proof fn write_outcomes_are_seen(report: MssqlWriteReport, error: DeltaFunnelError)
    ensures
        outcome_view(Ok(report)) matches Ok(seen) && seen.output_name == report.output_name@
            && seen.rows_written == report.rows_written && seen.batches_written
            == report.batches_written,
        outcome_view(Err(error)) == Err::<WriteReportView, ErrorView>(error@),
        failure_of(Ok(())) is None,
        failure_of(Err(error)) == Some(error@),
{
}

/// The outcome of several writes is seen with its report, or with its error.
pub proof fn workflow_outcomes_are_seen(report: MssqlWorkflowWriteReport, error: DeltaFunnelError)
    ensures
        written_view(Some(Ok(report))) == Some(Ok::<_, ErrorView>(report@)),
        written_view(Some(Err(error))) matches Some(Err(seen)) && seen == error@,
        written_view(None) is None,
{
}

/// A result is seen with its value, or with its message.
pub proof fn text_results_are_seen<T>(value: T, message: String)
    ensures
        text_result(Ok(value)) == Ok::<T, Seq<char>>(value),
        text_result::<T>(Err(message)) == Err::<T, Seq<char>>(message@),
{
}

/// A dependency and a lineage are seen with all their parts.
pub proof fn lineages_are_seen(dependency: DerivedTableDependency, lineage: DerivedTableLineage)
    ensures
        match (dependency, dependency@) {
            (
                DerivedTableDependency::DeltaSource { table_id, name },
                DependencyView::DeltaSource { table_id: id, name: seen },
            ) => id == table_id && seen == name@,
            (
                DerivedTableDependency::RegisteredDerived { table_id, name },
                DependencyView::RegisteredDerived { table_id: id, name: seen },
            ) => id == table_id && seen == name@,
            _ => false,
        },
        match (lineage, lineage@) {
            (
                DerivedTableLineage::Complete { dependencies, external_references, cte_names },
                LineageView::Complete { dependencies: d, external_references: e, cte_names: c },
            ) => d == views(dependencies@) && e == views(external_references@) && c == views(
                cte_names@,
            ),
            (
                DerivedTableLineage::Incomplete { reason },
                LineageView::Incomplete { reason: seen },
            ) => seen == reason@,
            _ => false,
        },
{
}

/// A decision, a covered alias and a route are seen with all their parts.
pub proof fn cache_plans_are_seen(
    decision: MssqlOutputCacheDecision,
    covered: MssqlCoveredCacheAlias,
    route: MssqlCachedOutputStreamRoute,
)
    ensures
        match (decision, decision@) {
            (
                MssqlOutputCacheDecision::NoCache { reason },
                DecisionView::NoCache { reason: seen },
            ) => seen == reason,
            (
                MssqlOutputCacheDecision::CacheAliases(aliases),
                DecisionView::CacheAliases(seen),
            ) => seen == views(aliases@),
            _ => false,
        },
        covered@.alias == covered.alias@,
        covered@.selected_table_id == covered.selected_table_id,
        match (route, route@) {
            (
                MssqlCachedOutputStreamRoute::DirectCachedAlias(alias),
                RouteView::DirectCachedAlias(seen),
            ) => seen == alias@,
            (
                MssqlCachedOutputStreamRoute::ReplannedCachedDependency(aliases),
                RouteView::ReplannedCachedDependency(seen),
            ) => seen == views(aliases@),
            (MssqlCachedOutputStreamRoute::UncachedLazyTable, RouteView::UncachedLazyTable) => true,
            _ => false,
        },
{
}

/// The status of a write, a protocol, a column and the counters of a scan are seen with all their
/// parts.
pub proof fn reports_are_seen(
    status: MssqlOutputWriteStatus,
    protocol: DeltaProtocolReport,
    column: PreviewColumn,
    stats: DeltaProviderReadStatsSnapshot,
)
    ensures
        match (status, status@) {
            (
                MssqlOutputWriteStatus::Succeeded(report),
                WriteStatusView::Succeeded(seen),
            ) => seen == report@,
            (
                MssqlOutputWriteStatus::Failed { output_name, error },
                WriteStatusView::Failed { output_name: name, error: seen },
            ) => name == output_name@ && seen == error@,
            (
                MssqlOutputWriteStatus::Skipped { output_name },
                WriteStatusView::Skipped { output_name: name },
            ) => name == output_name@,
            _ => false,
        },
        protocol@.source_name == protocol.source_name@,
        protocol@.min_reader_version == protocol.min_reader_version,
        protocol@.min_writer_version == protocol.min_writer_version,
        column@.name == column.name@,
        column@.type_text == column.type_text@,
        column@.numeric == column.numeric,
        stats@.source_name == stats.source_name@,
        stats@.snapshot_version == stats.snapshot_version,
        stats@.files_planned == stats.files_planned,
        stats@.files_handled == stats.files_handled,
        stats@.files_started == stats.files_started,
        stats@.files_completed == stats.files_completed,
        stats@.batches_produced == stats.batches_produced,
        stats@.rows_produced == stats.rows_produced,
        stats@.scan_metadata_exhausted == stats.scan_metadata_exhausted,
{
}

/// The report of a cache plan is seen with all its parts.
pub proof fn cache_reports_are_seen(report: WriteAllCacheReport)
    ensures
        match (report, report@) {
            (WriteAllCacheReport::Disabled, CacheReportView::Disabled) => true,
            (
                WriteAllCacheReport::NoCache { reason, skipped_candidates },
                CacheReportView::NoCache { reason: seen, skipped_candidates: skips },
            ) => seen == reason && skips == views(skipped_candidates@),
            (
                WriteAllCacheReport::CacheAliases { aliases, skipped_candidates },
                CacheReportView::CacheAliases { aliases: seen, skipped_candidates: skips },
            ) => seen == views(aliases@) && skips == views(skipped_candidates@),
            _ => false,
        },
{
}

/// Run modes, identities and reasons have names of their own.
pub proof fn modes_and_reasons_are_named()
    ensures
        RunMode::Execute.name_of() == "Execute"@,
        RunMode::DryRun.name_of() == "DryRun"@,
        MssqlDryRunSqlIdentityState::Present.name_of() == "present"@,
        MssqlDryRunSqlIdentityState::Absent.name_of() == "absent"@,
        MssqlDryRunSqlIdentityState::Unavailable.name_of() == "unavailable"@,
        MssqlNoCacheReason::FewerThanTwoOutputs.name_of() == "FewerThanTwoOutputs"@,
        MssqlNoCacheReason::NoSharedRegisteredDerivedAlias.name_of()
            == "NoSharedRegisteredDerivedAlias"@,
        MssqlNoCacheReason::AmbiguousSharedDerivedAlias.name_of()
            == "AmbiguousSharedDerivedAlias"@,
{
}

/// A runtime that could not be made, or that is called from inside another, is a matter of
/// configuration, and the first tells why.
pub proof fn runtime_errors_are_about_configuration(message: Seq<char>)
    ensures
        nested_runtime() is Config,
        runtime_not_created(message) == (ErrorView::Config {
            message: "failed to create DeltaFunnel runtime: "@ + message,
        }),
{
}

} // verus!
