//! How the end of a query is told and its files are counted.

use vstd::prelude::*;

use crate::execution::{
    DeltaProviderReadStatsSnapshot, DeltaProviderScanOutcome, PartitionTracking,
    ProfileRegistration, ProfileRoot, StreamEvent, file_counts, hands_out, open_after_all,
    partition_tracking, recorded, registration, reports_end_at, stronger, strongest,
    terminal_outcome,
};
use crate::report::{QueryExecutionOutcome, QueryExecutionScope};

verus! {

/// A failure outdoes everything, and only two successes make a success.
pub proof fn failure_outdoes_everything(a: DeltaProviderScanOutcome, b: DeltaProviderScanOutcome)
    ensures
        stronger(a, b) == DeltaProviderScanOutcome::Error <==> a == DeltaProviderScanOutcome::Error
            || b == DeltaProviderScanOutcome::Error,
        stronger(a, b) == DeltaProviderScanOutcome::Success <==> a
            == DeltaProviderScanOutcome::Success && b == DeltaProviderScanOutcome::Success,
{
}

/// Of some outcomes: an error where one is an error, a success where all are, and else cancelled.
pub proof fn one_failure_is_enough(outcomes: Seq<DeltaProviderScanOutcome>)
    ensures
        strongest(outcomes) == DeltaProviderScanOutcome::Error <==> outcomes.contains(
            DeltaProviderScanOutcome::Error,
        ),
        strongest(outcomes) == DeltaProviderScanOutcome::Success <==> forall|i: int|
            0 <= i < outcomes.len() ==> (#[trigger] outcomes[i])
                == DeltaProviderScanOutcome::Success,
    decreases outcomes.len(),
{
    if outcomes.len() > 0 {
        let front = outcomes.drop_last();
        let last = outcomes.last();
        one_failure_is_enough(front);
        assert(outcomes =~= front.push(last));
        if front.contains(DeltaProviderScanOutcome::Error) {
            let i = choose|i: int|
                0 <= i < front.len() && front[i] == DeltaProviderScanOutcome::Error;
            assert(outcomes[i] == DeltaProviderScanOutcome::Error);
        }
        if last == DeltaProviderScanOutcome::Error {
            assert(outcomes[outcomes.len() - 1] == DeltaProviderScanOutcome::Error);
        }
        if outcomes.contains(DeltaProviderScanOutcome::Error) {
            let i = choose|i: int|
                0 <= i < outcomes.len() && outcomes[i] == DeltaProviderScanOutcome::Error;
            if i < front.len() {
                assert(front[i] == DeltaProviderScanOutcome::Error);
            }
        }
        if forall|i: int|
            0 <= i < outcomes.len() ==> (#[trigger] outcomes[i])
                == DeltaProviderScanOutcome::Success {
            assert forall|i: int| 0 <= i < front.len() implies (#[trigger] front[i])
                == DeltaProviderScanOutcome::Success by {
                assert(front[i] == outcomes[i]);
            }
            assert(outcomes[outcomes.len() - 1] == DeltaProviderScanOutcome::Success);
        }
        if strongest(outcomes) == DeltaProviderScanOutcome::Success {
            assert forall|i: int| 0 <= i < outcomes.len() implies (#[trigger] outcomes[i])
                == DeltaProviderScanOutcome::Success by {
                if i < front.len() {
                    assert(front[i] == outcomes[i]);
                }
            }
        }
    }
}

/// A profile ends as its scan ended.
pub proof fn profile_ends_as_the_scan()
    ensures
        DeltaProviderScanOutcome::Success.profile_outcome() == QueryExecutionOutcome::Success,
        DeltaProviderScanOutcome::Cancelled.profile_outcome() == QueryExecutionOutcome::Cancelled,
        DeltaProviderScanOutcome::Error.profile_outcome() == QueryExecutionOutcome::Error,
{
}

/// A stream ends with its end, with a failure or by being dropped, and with nothing else.
pub proof fn streams_end_in_three_ways(event: StreamEvent)
    ensures
        terminal_outcome(event) == Some(DeltaProviderScanOutcome::Success) <==> event
            == StreamEvent::End,
        terminal_outcome(event) == Some(DeltaProviderScanOutcome::Error) <==> event
            == StreamEvent::Failed,
        terminal_outcome(event) == Some(DeltaProviderScanOutcome::Cancelled) <==> event
            == StreamEvent::Dropped,
        terminal_outcome(event) is None <==> event == StreamEvent::Batch || event
            == StreamEvent::Pending,
{
}

/// An event does not end a stream.
pub open spec fn goes_on(event: StreamEvent) -> bool {
    event == StreamEvent::Batch || event == StreamEvent::Pending
}

/// A stream is open as long as none of its events ended it.
pub proof fn stream_is_open_until_an_end(events: Seq<StreamEvent>)
    ensures
        open_after_all(events) <==> forall|i: int|
            0 <= i < events.len() ==> goes_on(#[trigger] events[i]),
    decreases events.len(),
{
    if events.len() > 0 {
        let front = events.drop_last();
        stream_is_open_until_an_end(front);
        if open_after_all(events) {
            assert forall|i: int| 0 <= i < events.len() implies goes_on(#[trigger] events[i]) by {
                if i < front.len() {
                    assert(front[i] == events[i]);
                }
            }
        }
        if forall|i: int| 0 <= i < events.len() ==> goes_on(#[trigger] events[i]) {
            assert forall|i: int| 0 <= i < front.len() implies goes_on(#[trigger] front[i]) by {
                assert(front[i] == events[i]);
            }
            assert(goes_on(events[events.len() - 1]));
        }
    }
}

/// The end of a stream is reported at its first ending event and nowhere else.
pub proof fn end_is_reported_at_the_first_ending_event(events: Seq<StreamEvent>, k: int)
    requires
        0 <= k < events.len(),
    ensures
        reports_end_at(events, k) <==> !goes_on(events[k]) && forall|i: int|
            0 <= i < k ==> goes_on(#[trigger] events[i]),
{
    let front = events.take(k);
    stream_is_open_until_an_end(front);
    if forall|i: int| 0 <= i < k ==> goes_on(#[trigger] events[i]) {
        assert forall|i: int| 0 <= i < front.len() implies goes_on(#[trigger] front[i]) by {
            assert(front[i] == events[i]);
        }
    }
    if open_after_all(front) {
        assert forall|i: int| 0 <= i < k implies goes_on(#[trigger] events[i]) by {
            assert(front[i] == events[i]);
        }
    }
}

/// Each ended partition counts once; what comes when none is left changes nothing.
pub proof fn ended_partitions_count_down(
    remaining: nat,
    so_far: DeltaProviderScanOutcome,
    outcome: DeltaProviderScanOutcome,
)
    ensures
        remaining > 0 ==> recorded(remaining, so_far, outcome).0 == remaining - 1,
        remaining > 0 ==> recorded(remaining, so_far, outcome).1 == stronger(so_far, outcome),
        remaining == 0 ==> recorded(remaining, so_far, outcome) == (remaining, so_far),
        hands_out(remaining) <==> recorded(remaining, so_far, outcome).0 == 0 && remaining > 0,
{
}

/// Streams share one end where there is something to report and a stream to wait for; without a
/// stream the end is reported at once, and with nothing to report there is nothing to track.
pub proof fn end_is_shared_where_it_is_needed(handles: nat, profiled: bool, streams: nat)
    ensures
        partition_tracking(handles, profiled, streams) == PartitionTracking::Untracked <==> handles
            == 0 && !profiled,
        partition_tracking(handles, profiled, streams) == PartitionTracking::FinalizeNow <==> (
        handles > 0 || profiled) && streams == 0,
        partition_tracking(handles, profiled, streams) == PartitionTracking::Coordinate <==> (
        handles > 0 || profiled) && streams > 0,
{
}

/// The files that some scans have handled.
pub open spec fn files_handled(snapshots: Seq<DeltaProviderReadStatsSnapshot>) -> nat
    decreases snapshots.len(),
{
    if snapshots.len() == 0 {
        0
    } else {
        files_handled(snapshots.skip(1)) + snapshots[0].files_handled as nat
    }
}

/// The files that some scans have planned.
pub open spec fn files_planned(snapshots: Seq<DeltaProviderReadStatsSnapshot>) -> nat
    decreases snapshots.len(),
{
    if snapshots.len() == 0 {
        0
    } else {
        files_planned(snapshots.skip(1)) + snapshots[0].files_planned as nat
    }
}

proof fn last_counts_too(snapshots: Seq<DeltaProviderReadStatsSnapshot>)
    requires
        snapshots.len() > 0,
    ensures
        files_handled(snapshots) == files_handled(snapshots.drop_last())
            + snapshots.last().files_handled,
        files_planned(snapshots) == files_planned(snapshots.drop_last())
            + snapshots.last().files_planned,
    decreases snapshots.len(),
{
    reveal_with_fuel(files_handled, 2);
    reveal_with_fuel(files_planned, 2);
    if snapshots.len() > 1 {
        last_counts_too(snapshots.skip(1));
        assert(snapshots.skip(1).drop_last() =~= snapshots.drop_last().skip(1));
        assert(snapshots.drop_last()[0] == snapshots[0]);
        assert(snapshots.skip(1).last() == snapshots.last());
    }
}

/// File progress adds up the files of all scans, handled and planned apart, and stays at the
/// largest number where a sum would pass it.
pub proof fn files_of_all_scans_add_up(snapshots: Seq<DeltaProviderReadStatsSnapshot>)
    ensures
        files_handled(snapshots) <= u64::MAX ==> file_counts(snapshots).0 == files_handled(
            snapshots,
        ),
        files_handled(snapshots) > u64::MAX ==> file_counts(snapshots).0 == u64::MAX,
        files_planned(snapshots) <= u64::MAX ==> file_counts(snapshots).1 == files_planned(
            snapshots,
        ),
        files_planned(snapshots) > u64::MAX ==> file_counts(snapshots).1 == u64::MAX,
    decreases snapshots.len(),
{
    if snapshots.len() > 0 {
        last_counts_too(snapshots);
        files_of_all_scans_add_up(snapshots.drop_last());
    }
}

/// A profile is registered where one is asked for, with what it is about and where its operators
/// are taken from.
pub proof fn asked_for_profiles_are_registered(scope: QueryExecutionScope, root: ProfileRoot)
    ensures
        registration(Some(scope), root) == Some(ProfileRegistration { scope, root }),
        registration(None, root) is None,
{
}

} // verus!
