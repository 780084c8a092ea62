//! How several writes go on, from the first output to the report.

use vstd::prelude::*;

use crate::cache_plan::{
    AliasPlanView, CachePlanView, DecisionView, MssqlCacheCandidateSkipReason, MssqlNoCacheReason,
    SkipView, output_cache_plan,
};
use crate::errors::{ErrorView, error_text};
use crate::handles::OutputWritePlanView;
use crate::routes::known_tables;
use crate::session::SessionView;
use crate::workflow::{
    CachedWriteStep, CachedWriteView, WorkflowRunView, WriteReportView, WriteStatusView,
    after_replacing, after_restoring, after_writing, cached_write_in_order, cached_write_outcome,
    cached_write_started, count_statuses, failed, next_cached_step, next_output, skipped,
    status_name, succeeded, workflow_finished, workflow_recorded, workflow_started,
};
use crate::write_all::{
    CacheReportView, SkipReportView, WriteAllCacheAliasStatus, WriteAllCacheCandidateSkipReason,
    WriteAllCacheMode, WriteAllNoCacheReason, executed_plan_report, planned_aliases,
    write_all_cache_plan,
};

verus! {

/// Several writes, after each output was asked for that is still to be written.
pub open spec fn run_over(
    names: Seq<Seq<char>>,
    outcomes: Seq<Result<WriteReportView, ErrorView>>,
    n: nat,
) -> WorkflowRunView
    decreases n,
{
    if n == 0 {
        workflow_started(names)
    } else {
        let run = run_over(names, outcomes, (n - 1) as nat);
        if next_output(run) is Some {
            workflow_recorded(run, outcomes[next_output(run)->0])
        } else {
            run
        }
    }
}

/// All of the first outcomes are good.
pub open spec fn all_good(outcomes: Seq<Result<WriteReportView, ErrorView>>, n: int) -> bool {
    forall|j: int| 0 <= j < n ==> (#[trigger] outcomes[j]) is Ok
}

/// The status that an outcome gives an output.
pub open spec fn is_status_of(
    status: WriteStatusView,
    name: Seq<char>,
    outcome: Result<WriteReportView, ErrorView>,
) -> bool {
    match outcome {
        Ok(report) => status matches WriteStatusView::Succeeded(written) && written == report,
        Err(error) => status matches WriteStatusView::Failed { output_name, error: text }
            && output_name == name && text == error_text(error),
    }
}

proof fn run_over_is(
    names: Seq<Seq<char>>,
    outcomes: Seq<Result<WriteReportView, ErrorView>>,
    n: nat,
)
    requires
        outcomes.len() == names.len(),
        n <= names.len(),
    ensures
        ({
            let run = run_over(names, outcomes, n);
            &&& run.names == names
            &&& all_good(outcomes, n as int) ==> !run.failed && run.statuses.len() == n
            &&& !all_good(outcomes, n as int) ==> run.failed && 0 < run.statuses.len() <= n
                && outcomes[run.statuses.len() - 1] is Err && all_good(
                outcomes,
                run.statuses.len() - 1,
            )
            &&& forall|i: int|
                0 <= i < run.statuses.len() ==> is_status_of(
                    #[trigger] run.statuses[i],
                    names[i],
                    outcomes[i],
                )
        }),
    decreases n,
{
    if n > 0 {
        run_over_is(names, outcomes, (n - 1) as nat);
        let before = run_over(names, outcomes, (n - 1) as nat);
        if all_good(outcomes, n - 1) {
            assert(next_output(before) == Some(n - 1));
            if outcomes[n - 1] is Ok {
                assert(all_good(outcomes, n as int));
            } else {
                assert(!all_good(outcomes, n as int)) by {
                    assert(outcomes[n - 1] is Err);
                }
            }
        } else {
            assert(!all_good(outcomes, n as int));
        }
    }
}

/// Outputs are written in order until one fails: every output up to that one has the status of
/// its own outcome, under its own name, and every output behind it is skipped.
pub proof fn outputs_are_written_until_one_fails(
    names: Seq<Seq<char>>,
    outcomes: Seq<Result<WriteReportView, ErrorView>>,
    i: int,
)
    requires
        outcomes.len() == names.len(),
        0 <= i < names.len(),
    ensures
        ({
            let statuses = workflow_finished(run_over(names, outcomes, names.len()));
            &&& statuses.len() == names.len()
            &&& all_good(outcomes, i) ==> is_status_of(statuses[i], names[i], outcomes[i])
            &&& !all_good(outcomes, i) ==> (statuses[i] matches WriteStatusView::Skipped {
                output_name,
            } && output_name == names[i])
        }),
{
    run_over_is(names, outcomes, names.len());
    let run = run_over(names, outcomes, names.len());
    if all_good(outcomes, i) {
        if run.statuses.len() <= i {
            assert(outcomes[run.statuses.len() - 1] is Ok);
        }
    } else {
        let j = choose|j: int| 0 <= j < i && !((#[trigger] outcomes[j]) is Ok);
        if run.statuses.len() > i {
            assert(outcomes[j] is Ok);
        }
    }
}

/// One outcome is kept behind those before it; a failure ends the writing and nothing is asked
/// for any more.
pub proof fn outcome_is_kept_behind_the_others(
    run: WorkflowRunView,
    outcome: Result<WriteReportView, ErrorView>,
)
    requires
        next_output(run) is Some,
    ensures
        next_output(run) == Some(run.statuses.len() as int),
        run.statuses.len() < run.names.len(),
        workflow_recorded(run, outcome).names == run.names,
        workflow_recorded(run, outcome).statuses.drop_last() == run.statuses,
        is_status_of(
            workflow_recorded(run, outcome).statuses.last(),
            run.names[run.statuses.len() as int],
            outcome,
        ),
        outcome is Err ==> next_output(workflow_recorded(run, outcome)) is None,
        outcome is Ok ==> next_output(workflow_recorded(run, outcome)) == (if run.statuses.len() + 1
            < run.names.len() {
            Some((run.statuses.len() + 1) as int)
        } else {
            None
        }),
{
    assert(workflow_recorded(run, outcome).statuses.drop_last() =~= run.statuses);
}

/// A status carries the name of its output.
pub proof fn status_carries_its_name(status: WriteStatusView)
    ensures
        match status {
            WriteStatusView::Succeeded(report) => status_name(status) == report.output_name,
            WriteStatusView::Failed { output_name, .. } => status_name(status) == output_name,
            WriteStatusView::Skipped { output_name } => status_name(status) == output_name,
        },
{
}

/// Counting what is wanted of two lists of statuses, one behind the other, counts both.
pub proof fn statuses_are_counted_one_by_one(
    statuses: Seq<WriteStatusView>,
    status: WriteStatusView,
)
    ensures
        count_statuses(statuses, succeeded(), 0) == 0,
        count_statuses(statuses, failed(), 0) == 0,
        count_statuses(statuses, skipped(), 0) == 0,
        count_statuses(statuses.push(status), succeeded(), statuses.len() + 1) == count_statuses(
            statuses,
            succeeded(),
            statuses.len(),
        ) + (if status is Succeeded {
            1nat
        } else {
            0
        }),
        count_statuses(statuses.push(status), failed(), statuses.len() + 1) == count_statuses(
            statuses,
            failed(),
            statuses.len(),
        ) + (if status is Failed {
            1nat
        } else {
            0
        }),
        count_statuses(statuses.push(status), skipped(), statuses.len() + 1) == count_statuses(
            statuses,
            skipped(),
            statuses.len(),
        ) + (if status is Skipped {
            1nat
        } else {
            0
        }),
{
    longer_list_counts_the_same(statuses, status, succeeded(), statuses.len());
    longer_list_counts_the_same(statuses, status, failed(), statuses.len());
    longer_list_counts_the_same(statuses, status, skipped(), statuses.len());
}

proof fn longer_list_counts_the_same(
    statuses: Seq<WriteStatusView>,
    status: WriteStatusView,
    wanted: spec_fn(WriteStatusView) -> bool,
    n: nat,
)
    requires
        n <= statuses.len(),
    ensures
        count_statuses(statuses.push(status), wanted, n) == count_statuses(statuses, wanted, n),
    decreases n,
{
    if n > 0 {
        longer_list_counts_the_same(statuses, status, wanted, (n - 1) as nat);
    }
}

/// Caches are put in place one after the other from the first, and only once all are in place
/// the outputs are written; afterwards they are taken back one after the other from the last.
pub proof fn caches_are_placed_and_taken_back_in_turn(run: CachedWriteView)
    requires
        cached_write_in_order(run),
    ensures
        next_cached_step(run) == (if run.written is None && run.active < run.alias_count {
            CachedWriteStep::ReplaceAlias(run.active as usize)
        } else if run.written is None {
            CachedWriteStep::WriteOutputs
        } else if run.active > 0 {
            CachedWriteStep::RestoreAlias((run.active - 1) as usize)
        } else {
            CachedWriteStep::Finished
        }),
{
}

/// A cached write starts with nothing in place.
pub proof fn cached_write_starts_with_nothing(alias_count: nat)
    ensures
        cached_write_started(alias_count).alias_count == alias_count,
        cached_write_started(alias_count).active == 0,
        cached_write_started(alias_count).written is None,
        cached_write_started(alias_count).restore_failure is None,
        !cached_write_started(alias_count).restoring,
{
}

/// What each step of a cached write changes, and what it leaves.
pub proof fn each_step_changes_its_own_part(
    run: CachedWriteView,
    error: ErrorView,
    outcome: Result<Seq<WriteStatusView>, ErrorView>,
)
    requires
        cached_write_in_order(run),
    ensures
        ({
            let placed = after_replacing(run, None);
            &&& placed.active == run.active + 1
            &&& placed.alias_count == run.alias_count
            &&& placed.written == run.written
            &&& placed.restoring == run.restoring
            &&& placed.restore_failure == run.restore_failure
        }),
        ({
            let refused = after_replacing(run, Some(error));
            &&& refused.active == run.active
            &&& refused.alias_count == run.alias_count
            &&& refused.written == Some(Err::<Seq<WriteStatusView>, ErrorView>(error))
            &&& refused.restoring
            &&& refused.restore_failure == run.restore_failure
        }),
        ({
            let written = after_writing(run, outcome);
            &&& written.active == run.active
            &&& written.alias_count == run.alias_count
            &&& written.written == Some(outcome)
            &&& written.restoring
            &&& written.restore_failure == run.restore_failure
        }),
        run.active > 0 ==> ({
            let restored = after_restoring(run, None);
            &&& restored.active == run.active - 1
            &&& restored.alias_count == run.alias_count
            &&& restored.written == run.written
            &&& restored.restoring == run.restoring
            &&& restored.restore_failure == run.restore_failure
        }),
        run.active > 0 ==> ({
            let left = after_restoring(run, Some(error));
            &&& left.active == run.active - 1
            &&& left.alias_count == run.alias_count
            &&& left.written == run.written
            &&& left.restoring == run.restoring
            &&& left.restore_failure == (if run.restore_failure is Some {
                run.restore_failure
            } else {
                Some(error)
            })
        }),
{
}

/// A cached write succeeds exactly where the outputs were written and all caches taken back. A
/// failure to take back turns a written report into that failure, and is told of behind a failed
/// write.
pub proof fn cached_write_needs_both_to_succeed(
    written: Result<Seq<WriteStatusView>, ErrorView>,
    restore_failure: Option<ErrorView>,
)
    ensures
        cached_write_outcome(written, restore_failure) is Ok <==> written is Ok && restore_failure
            is None,
        written is Ok && restore_failure is None ==> cached_write_outcome(written, restore_failure)
            == written,
        written is Ok && restore_failure is Some ==> cached_write_outcome(written, restore_failure)
            == Err::<Seq<WriteStatusView>, ErrorView>(restore_failure->0),
        written is Err && restore_failure is None ==> cached_write_outcome(written, restore_failure)
            == written,
        written is Err && restore_failure is Some ==> (cached_write_outcome(
            written,
            restore_failure,
        ) matches Err(ErrorView::MssqlWorkflowPlanning { message }) && message
            == "write_all auto cache failed: "@ + error_text(written->Err_0)
            + "; also failed to restore cache aliases: "@ + error_text(restore_failure->0)),
{
}

/// A skip is reported with its alias and the reason of the same meaning.
pub open spec fn tells_of_skip(
    reported: SkipReportView,
    skip: SkipView,
) -> bool {
    &&& reported.table_id == skip.table_id
    &&& reported.alias == skip.alias
    &&& match skip.reason {
        MssqlCacheCandidateSkipReason::NotShared { output_count } => reported.reason
            matches WriteAllCacheCandidateSkipReason::NotShared { output_count: told } && told
            == output_count,
        MssqlCacheCandidateSkipReason::MissingSqlText => reported.reason is MissingSqlText,
        MssqlCacheCandidateSkipReason::IncompleteLineage => reported.reason is IncompleteLineage,
        MssqlCacheCandidateSkipReason::CoveredByDeeperSharedAlias { selected_table_id } => {
            reported.reason matches WriteAllCacheCandidateSkipReason::CoveredByDeeperSharedAlias {
                selected_table_id: told,
            } && told == selected_table_id
        },
        MssqlCacheCandidateSkipReason::AmbiguousDepth => reported.reason is AmbiguousDepth,
    }
}

/// The report of a cache plan tells its decision, alias by alias and in order, and every skip.
pub proof fn cache_report_tells_the_plan(plan: CachePlanView)
    ensures
        match (plan.decision, executed_plan_report(plan)) {
            (
                DecisionView::NoCache { reason },
                CacheReportView::NoCache { reason: told, skipped_candidates },
            ) => {
                &&& reason == MssqlNoCacheReason::FewerThanTwoOutputs <==> told
                    == WriteAllNoCacheReason::FewerThanTwoOutputs
                &&& reason == MssqlNoCacheReason::NoSharedRegisteredDerivedAlias <==> told
                    == WriteAllNoCacheReason::NoSharedRegisteredDerivedAlias
                &&& reason == MssqlNoCacheReason::AmbiguousSharedDerivedAlias <==> told
                    == WriteAllNoCacheReason::AmbiguousSharedDerivedAlias
                &&& skipped_candidates.len() == plan.skipped_candidates.len()
                &&& forall|i: int|
                    0 <= i < plan.skipped_candidates.len() ==> tells_of_skip(
                        #[trigger] skipped_candidates[i],
                        plan.skipped_candidates[i],
                    )
            },
            (
                DecisionView::CacheAliases(cached),
                CacheReportView::CacheAliases { aliases, skipped_candidates },
            ) => {
                &&& aliases.len() == cached.len()
                &&& forall|i: int|
                    0 <= i < cached.len() ==> (#[trigger] aliases[i]).alias == cached[i]
                        && aliases[i].status == WriteAllCacheAliasStatus::MaterializedAndRestored
                &&& skipped_candidates.len() == plan.skipped_candidates.len()
                &&& forall|i: int|
                    0 <= i < plan.skipped_candidates.len() ==> tells_of_skip(
                        #[trigger] skipped_candidates[i],
                        plan.skipped_candidates[i],
                    )
            },
            _ => false,
        },
{
}

/// Caches are planned in the automatic mode, by the cache plan of the requests, and in no other.
pub proof fn caches_are_planned_in_automatic_mode(
    s: SessionView,
    requests: Seq<OutputWritePlanView>,
)
    ensures
        write_all_cache_plan(s, requests, WriteAllCacheMode::Auto) == Some(
            output_cache_plan(known_tables(s), requests),
        ),
        write_all_cache_plan(s, requests, WriteAllCacheMode::Disabled) is None,
        known_tables(s).derived == s.derived,
        known_tables(s).pending == s.pending,
{
}

/// The caches to put in place are those that the plan decided on; without a plan, or where it
/// decided on none, there are none.
pub proof fn planned_caches_are_those_decided_on(plan: CachePlanView, cached: Seq<AliasPlanView>)
    ensures
        plan.decision == DecisionView::CacheAliases(cached) ==> planned_aliases(Some(plan))
            == cached,
        plan.decision is NoCache ==> planned_aliases(Some(plan)) == Seq::<AliasPlanView>::empty(),
        planned_aliases(None) == Seq::<AliasPlanView>::empty(),
{
}

} // verus!
