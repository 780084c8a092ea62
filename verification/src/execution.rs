//! How tracked query executions end, and what is reported while they run.

use vstd::prelude::*;

use crate::errors::{DeltaFunnelError, datafusion_handoff_setup_error, handoff_setup};
use crate::report::{QueryExecutionOutcome, QueryExecutionScope};

verus! {

/// How the scans of one execution ended.
#[derive(Debug, Clone, Copy, PartialEq, Eq, Structural)]
pub enum DeltaProviderScanOutcome {
    /// Every stream reached its end.
    Success,
    /// A stream was dropped before its end.
    Cancelled,
    /// A stream failed.
    Error,
}

/// How strongly an outcome speaks against success.
pub open spec fn strength(outcome: DeltaProviderScanOutcome) -> int {
    match outcome {
        DeltaProviderScanOutcome::Success => 0,
        DeltaProviderScanOutcome::Cancelled => 1,
        DeltaProviderScanOutcome::Error => 2,
    }
}

/// The stronger of two outcomes.
pub open spec fn stronger(
    current: DeltaProviderScanOutcome,
    next: DeltaProviderScanOutcome,
) -> DeltaProviderScanOutcome {
    if strength(next) > strength(current) {
        next
    } else {
        current
    }
}

/// Returns the stronger of two outcomes.
pub fn strongest_provider_scan_outcome(
    current: DeltaProviderScanOutcome,
    next: DeltaProviderScanOutcome,
) -> (r: DeltaProviderScanOutcome)
    ensures
        r == stronger(current, next),
{
    match (current, next) {
        (DeltaProviderScanOutcome::Error, _) | (_, DeltaProviderScanOutcome::Error) => {
            DeltaProviderScanOutcome::Error
        },
        (DeltaProviderScanOutcome::Cancelled, _) | (_, DeltaProviderScanOutcome::Cancelled) => {
            DeltaProviderScanOutcome::Cancelled
        },
        _ => DeltaProviderScanOutcome::Success,
    }
}

/// Which of two outcomes comes first makes no difference.
pub proof fn stronger_is_commutative(a: DeltaProviderScanOutcome, b: DeltaProviderScanOutcome)
    ensures
        stronger(a, b) == stronger(b, a),
{
}

/// How outcomes are grouped makes no difference.
pub proof fn stronger_is_associative(
    a: DeltaProviderScanOutcome,
    b: DeltaProviderScanOutcome,
    c: DeltaProviderScanOutcome,
)
    ensures
        stronger(stronger(a, b), c) == stronger(a, stronger(b, c)),
{
}

/// An outcome only ever grows stronger, and success adds nothing.
pub proof fn stronger_only_grows(a: DeltaProviderScanOutcome, b: DeltaProviderScanOutcome)
    ensures
        strength(stronger(a, b)) >= strength(a),
        strength(stronger(a, b)) >= strength(b),
        stronger(a, b) == a || stronger(a, b) == b,
        stronger(a, DeltaProviderScanOutcome::Success) == a,
{
}

/// The strongest of some outcomes, success where there is none.
pub open spec fn strongest(outcomes: Seq<DeltaProviderScanOutcome>) -> DeltaProviderScanOutcome
    decreases outcomes.len(),
{
    if outcomes.len() == 0 {
        DeltaProviderScanOutcome::Success
    } else {
        stronger(strongest(outcomes.drop_last()), outcomes.last())
    }
}

impl DeltaProviderScanOutcome {
    /// The outcome that an execution profile records.
    pub open spec fn profile_outcome(self) -> QueryExecutionOutcome {
        match self {
            DeltaProviderScanOutcome::Success => QueryExecutionOutcome::Success,
            DeltaProviderScanOutcome::Cancelled => QueryExecutionOutcome::Cancelled,
            DeltaProviderScanOutcome::Error => QueryExecutionOutcome::Error,
        }
    }

    /// Returns the outcome that an execution profile records.
    pub fn query_execution_outcome(&self) -> (r: QueryExecutionOutcome)
        ensures
            r == self.profile_outcome(),
    {
        match self {
            DeltaProviderScanOutcome::Success => QueryExecutionOutcome::Success,
            DeltaProviderScanOutcome::Cancelled => QueryExecutionOutcome::Cancelled,
            DeltaProviderScanOutcome::Error => QueryExecutionOutcome::Error,
        }
    }
}

/// What happens at a batch stream.
#[derive(Debug, Clone, Copy, PartialEq, Eq, Structural)]
pub enum StreamEvent {
    /// A batch is ready.
    Batch,
    /// Nothing is ready yet.
    Pending,
    /// The stream reached its end.
    End,
    /// The stream failed.
    Failed,
    /// The consumer dropped the stream.
    Dropped,
}

/// The outcome that an event stands for, if it ends the stream.
pub open spec fn terminal_outcome(event: StreamEvent) -> Option<DeltaProviderScanOutcome> {
    match event {
        StreamEvent::End => Some(DeltaProviderScanOutcome::Success),
        StreamEvent::Failed => Some(DeltaProviderScanOutcome::Error),
        StreamEvent::Dropped => Some(DeltaProviderScanOutcome::Cancelled),
        StreamEvent::Batch | StreamEvent::Pending => None,
    }
}

/// Returns the outcome that an event stands for, if it ends the stream.
pub fn terminal_outcome_of(event: StreamEvent) -> (r: Option<DeltaProviderScanOutcome>)
    ensures
        r == terminal_outcome(event),
{
    match event {
        StreamEvent::End => Some(DeltaProviderScanOutcome::Success),
        StreamEvent::Failed => Some(DeltaProviderScanOutcome::Error),
        StreamEvent::Dropped => Some(DeltaProviderScanOutcome::Cancelled),
        StreamEvent::Batch | StreamEvent::Pending => None,
    }
}

/// Whether a stream has not ended after an event.
pub open spec fn open_after(open: bool, event: StreamEvent) -> bool {
    open && terminal_outcome(event) is None
}

/// Whether a stream has not ended after some events.
pub open spec fn open_after_all(events: Seq<StreamEvent>) -> bool
    decreases events.len(),
{
    if events.len() == 0 {
        true
    } else {
        open_after(open_after_all(events.drop_last()), events.last())
    }
}

/// The end is reported at an event: it ends the stream, and the stream had not ended before.
pub open spec fn reports_end_at(events: Seq<StreamEvent>, k: int) -> bool {
    open_after_all(events.take(k)) && terminal_outcome(events[k]) is Some
}

proof fn open_means_no_end(events: Seq<StreamEvent>, k: int)
    requires
        open_after_all(events),
        0 <= k < events.len(),
    ensures
        terminal_outcome(events[k]) is None,
    decreases events.len(),
{
    if k < events.len() - 1 {
        open_means_no_end(events.drop_last(), k);
        assert(events.drop_last()[k] == events[k]);
    }
}

/// Whatever happens at a stream, its end is reported at one event at most.
pub proof fn end_is_reported_once(events: Seq<StreamEvent>, i: int, j: int)
    requires
        0 <= i < events.len(),
        0 <= j < events.len(),
        reports_end_at(events, i),
        reports_end_at(events, j),
    ensures
        i == j,
{
    if i < j {
        open_means_no_end(events.take(j), i);
    } else if j < i {
        open_means_no_end(events.take(i), j);
    }
}

/// Where a stream is ended again and again, the first end is the one that is reported.
pub proof fn first_end_is_reported(events: Seq<StreamEvent>, k: int)
    requires
        0 <= k < events.len(),
        forall|i: int| 0 <= i < events.len() ==> terminal_outcome(#[trigger] events[i]) is Some,
    ensures
        reports_end_at(events, k) <==> k == 0,
{
    if k > 0 && reports_end_at(events, k) {
        open_means_no_end(events.take(k), 0);
        assert(events.take(k)[0] == events[0]);
    }
}

/// A stream that is dropped after anything else has its end reported.
pub proof fn dropped_stream_reports_its_end(events: Seq<StreamEvent>)
    requires
        events.len() > 0,
        events.last() == StreamEvent::Dropped,
    ensures
        exists|k: int| 0 <= k < events.len() && #[trigger] reports_end_at(events, k),
    decreases events.len(),
{
    let last = events.len() - 1;
    if open_after_all(events.take(last)) {
        assert(reports_end_at(events, last));
    } else {
        closed_means_reported(events, last);
    }
}

proof fn closed_means_reported(events: Seq<StreamEvent>, n: int)
    requires
        0 <= n <= events.len(),
        !open_after_all(events.take(n)),
    ensures
        exists|k: int| 0 <= k < n && #[trigger] reports_end_at(events, k),
    decreases n,
{
    assert(events.take(n).drop_last() =~= events.take(n - 1));
    if open_after_all(events.take(n - 1)) {
        assert(reports_end_at(events, n - 1));
    } else {
        closed_means_reported(events, n - 1);
    }
}

/// What is handed out once, when an execution ends.
pub struct Finalization<H, P> {
    /// Counters of the execution's scans.
    pub read_stats_handles: Vec<H>,
    /// Consumer of the execution profile, if one is wanted.
    pub profile_consumer: Option<P>,
    /// How the execution ended.
    pub outcome: DeltaProviderScanOutcome,
}

/// Terminal state of one merged execution: what is handed out when its stream ends.
pub struct QueryExecutionTerminal<H, P> {
    read_stats_handles: Option<Vec<H>>,
    profile_consumer: Option<P>,
}

impl<H, P> QueryExecutionTerminal<H, P> {
    /// The counters that are kept until the end.
    pub closed spec fn kept_handles(self) -> Option<Seq<H>> {
        match self.read_stats_handles {
            Some(handles) => Some(handles@),
            None => None,
        }
    }

    /// The stream has not ended.
    pub open spec fn open(self) -> bool {
        self.kept_handles() is Some
    }

    /// The counters that are kept for the end.
    pub open spec fn handles(self) -> Seq<H> {
        self.kept_handles()->0
    }

    /// The profile consumer that is kept for the end.
    pub closed spec fn consumer(self) -> Option<P> {
        self.profile_consumer
    }

    /// Keeps what is handed out when the stream ends.
    pub fn new(read_stats_handles: Vec<H>, profile_consumer: Option<P>) -> (r: Self)
        ensures
            r.open(),
            r.handles() == read_stats_handles@,
            r.consumer() == profile_consumer,
    {
        QueryExecutionTerminal {
            read_stats_handles: Some(read_stats_handles),
            profile_consumer,
        }
    }

    /// Takes note of an event at the stream. The first one that ends the stream hands out all
    /// that was kept; after it nothing changes and nothing is handed out.
    pub fn observe(&mut self, event: StreamEvent) -> (r: Option<Finalization<H, P>>)
        ensures
            final(self).open() == open_after(old(self).open(), event),
            terminal_outcome(event) is None ==> *final(self) == *old(self),
            match terminal_outcome(event) {
                Some(outcome) if old(self).open() => r matches Some(f) && f.read_stats_handles@
                    == old(self).handles() && f.profile_consumer == old(self).consumer()
                    && f.outcome == outcome && final(self).consumer() is None,
                _ => r is None,
            },
            !old(self).open() ==> *final(self) == *old(self),
    {
        let outcome = match terminal_outcome_of(event) {
            Some(outcome) => outcome,
            None => {
                return None;
            },
        };
        match self.read_stats_handles.take() {
            None => None,
            Some(read_stats_handles) => Some(
                Finalization {
                    read_stats_handles,
                    profile_consumer: self.profile_consumer.take(),
                    outcome,
                },
            ),
        }
    }
}

/// Shared state of the streams of one partitioned execution.
pub struct PartitionExecutionState<H, P> {
    remaining_streams: usize,
    outcome: DeltaProviderScanOutcome,
    read_stats_handles: Vec<H>,
    profile_consumer: Option<P>,
}

impl<H, P> PartitionExecutionState<H, P> {
    /// Streams that have not ended.
    pub closed spec fn remaining(self) -> usize {
        self.remaining_streams
    }

    /// The strongest outcome so far.
    pub closed spec fn so_far(self) -> DeltaProviderScanOutcome {
        self.outcome
    }

    /// The counters that are kept for the end.
    pub closed spec fn handles(self) -> Seq<H> {
        self.read_stats_handles@
    }

    /// The profile consumer that is kept for the end.
    pub closed spec fn consumer(self) -> Option<P> {
        self.profile_consumer
    }

    /// Waits for the end of some streams.
    pub fn new(read_stats_handles: Vec<H>, profile_consumer: Option<P>, stream_count: usize) -> (r:
        Self)
        ensures
            r.remaining() == stream_count,
            r.so_far() == DeltaProviderScanOutcome::Success,
            r.handles() == read_stats_handles@,
            r.consumer() == profile_consumer,
    {
        PartitionExecutionState {
            remaining_streams: stream_count,
            outcome: DeltaProviderScanOutcome::Success,
            read_stats_handles,
            profile_consumer,
        }
    }

    /// Returns how many streams have not ended.
    pub fn remaining_streams(&self) -> (r: usize)
        ensures
            r == self.remaining(),
    {
        self.remaining_streams
    }

    /// Returns the strongest outcome so far.
    pub fn outcome(&self) -> (r: DeltaProviderScanOutcome)
        ensures
            r == self.so_far(),
    {
        self.outcome
    }

    /// Takes note that a stream ended. The last one hands out what was kept, with the
    /// strongest outcome of all streams; after it nothing changes.
    pub fn record_stream_terminal(&mut self, outcome: DeltaProviderScanOutcome) -> (r: Option<
        Finalization<H, P>,
    >)
        ensures
            (final(self).remaining() as nat, final(self).so_far()) == recorded(
                old(self).remaining() as nat,
                old(self).so_far(),
                outcome,
            ),
            if hands_out(old(self).remaining() as nat) {
                &&& r matches Some(f) && f.read_stats_handles@ == old(self).handles()
                    && f.profile_consumer == old(self).consumer() && f.outcome
                    == final(self).so_far()
                &&& final(self).handles() == Seq::<H>::empty()
                &&& final(self).consumer() is None
            } else {
                &&& r is None
                &&& final(self).handles() == old(self).handles()
                &&& final(self).consumer() == old(self).consumer()
            },
    {
        if self.remaining_streams == 0 {
            return None;
        }
        self.outcome = strongest_provider_scan_outcome(self.outcome, outcome);
        self.remaining_streams = self.remaining_streams - 1;
        if self.remaining_streams != 0 {
            return None;
        }
        let mut read_stats_handles: Vec<H> = Vec::new();
        std::mem::swap(&mut read_stats_handles, &mut self.read_stats_handles);
        Some(
            Finalization {
                read_stats_handles,
                profile_consumer: self.profile_consumer.take(),
                outcome: self.outcome,
            },
        )
    }
}

/// The streams that are left and the outcome so far once one more stream ended.
pub open spec fn recorded(
    remaining: nat,
    so_far: DeltaProviderScanOutcome,
    outcome: DeltaProviderScanOutcome,
) -> (nat, DeltaProviderScanOutcome) {
    if remaining == 0 {
        (remaining, so_far)
    } else {
        ((remaining - 1) as nat, stronger(so_far, outcome))
    }
}

/// The end of the last stream that is left ends the execution.
pub open spec fn hands_out(remaining: nat) -> bool {
    remaining == 1
}

/// The streams that are left of `count` and the outcome so far once some have ended.
pub open spec fn partition_state_after(
    count: nat,
    outcomes: Seq<DeltaProviderScanOutcome>,
) -> (nat, DeltaProviderScanOutcome)
    decreases outcomes.len(),
{
    if outcomes.len() == 0 {
        (count, DeltaProviderScanOutcome::Success)
    } else {
        let before = partition_state_after(count, outcomes.drop_last());
        recorded(before.0, before.1, outcomes.last())
    }
}

/// While streams are left, as many have ended as were recorded, and the outcome so far is the
/// strongest recorded one.
pub proof fn partition_outcome_is_the_strongest(
    count: nat,
    outcomes: Seq<DeltaProviderScanOutcome>,
)
    requires
        outcomes.len() <= count,
    ensures
        partition_state_after(count, outcomes) == (
            (count - outcomes.len()) as nat,
            strongest(outcomes),
        ),
    decreases outcomes.len(),
{
    if outcomes.len() > 0 {
        partition_outcome_is_the_strongest(count, outcomes.drop_last());
    }
}

proof fn nothing_is_left(count: nat, outcomes: Seq<DeltaProviderScanOutcome>)
    requires
        outcomes.len() >= count,
    ensures
        partition_state_after(count, outcomes).0 == 0,
    decreases outcomes.len(),
{
    if outcomes.len() == count {
        partition_outcome_is_the_strongest(count, outcomes);
    } else {
        nothing_is_left(count, outcomes.drop_last());
    }
}

/// Of the ends that are recorded, exactly the one that makes as many as there are streams ends
/// the execution.
pub proof fn execution_ends_once(count: nat, outcomes: Seq<DeltaProviderScanOutcome>, k: int)
    requires
        0 <= k < outcomes.len(),
    ensures
        hands_out(partition_state_after(count, outcomes.take(k)).0) <==> k + 1 == count,
{
    if k < count {
        partition_outcome_is_the_strongest(count, outcomes.take(k));
    } else {
        nothing_is_left(count, outcomes.take(k));
    }
}

/// How the end of a partitioned execution is tracked.
#[derive(Debug, Clone, Copy, PartialEq, Eq, Structural)]
pub enum PartitionTracking {
    /// There is nothing to report at the end.
    Untracked,
    /// There are no streams: the execution has ended with success.
    FinalizeNow,
    /// The streams share one terminal state.
    Coordinate,
}

/// How the end of a partitioned execution is tracked.
pub open spec fn partition_tracking(handles: nat, profiled: bool, streams: nat) -> PartitionTracking {
    if handles == 0 && !profiled {
        PartitionTracking::Untracked
    } else if streams == 0 {
        PartitionTracking::FinalizeNow
    } else {
        PartitionTracking::Coordinate
    }
}

/// Result of setting up the tracking of a partitioned execution.
pub enum PartitionTrackingSetup<H, P> {
    /// There is nothing to report at the end.
    Untracked,
    /// The execution has ended; this is handed out at once.
    Finalized(Finalization<H, P>),
    /// The streams report to this state.
    Coordinated(PartitionExecutionState<H, P>),
}

/// Sets up one shared terminal state for the streams of a partitioned execution.
pub fn track_partitioned_query_execution_completion<H, P>(
    stream_count: usize,
    read_stats_handles: Vec<H>,
    profile_consumer: Option<P>,
) -> (r: PartitionTrackingSetup<H, P>)
    ensures
        match partition_tracking(
            read_stats_handles@.len(),
            profile_consumer is Some,
            stream_count as nat,
        ) {
            PartitionTracking::Untracked => r is Untracked,
            PartitionTracking::FinalizeNow => r matches PartitionTrackingSetup::Finalized(f)
                && f.read_stats_handles@ == read_stats_handles@ && f.profile_consumer
                == profile_consumer && f.outcome == DeltaProviderScanOutcome::Success,
            PartitionTracking::Coordinate => r matches PartitionTrackingSetup::Coordinated(state)
                && state.remaining() == stream_count && state.so_far()
                == DeltaProviderScanOutcome::Success && state.handles() == read_stats_handles@
                && state.consumer() == profile_consumer,
        },
{
    if read_stats_handles.len() == 0 && profile_consumer.is_none() {
        return PartitionTrackingSetup::Untracked;
    }
    if stream_count == 0 {
        return PartitionTrackingSetup::Finalized(
            Finalization {
                read_stats_handles,
                profile_consumer,
                outcome: DeltaProviderScanOutcome::Success,
            },
        );
    }
    PartitionTrackingSetup::Coordinated(
        PartitionExecutionState::new(read_stats_handles, profile_consumer, stream_count),
    )
}

/// What is put around one merged stream.
#[derive(Debug, Clone, Copy, PartialEq, Eq, Structural)]
pub struct StreamTracking {
    /// File progress is sampled while the stream is read.
    pub file_progress: bool,
    /// The end of the stream is reported.
    pub completion: bool,
}

/// Decides what is put around one merged stream: progress needs counters and a reporter, the
/// report at the end needs counters or a profile.
pub fn wrap_stream_with_query_execution_tracking(
    handle_count: usize,
    reported: bool,
    profiled: bool,
) -> (r: StreamTracking)
    ensures
        r.file_progress == (reported && handle_count > 0),
        r.completion == (handle_count > 0 || profiled),
{
    StreamTracking {
        file_progress: reported && handle_count > 0,
        completion: handle_count > 0 || profiled,
    }
}

/// What a provider's counters say.
pub struct ProviderSnapshotView {
    pub source_name: Seq<char>,
    pub snapshot_version: u64,
    pub files_planned: u64,
    pub files_handled: u64,
    pub files_started: u64,
    pub files_completed: u64,
    pub batches_produced: u64,
    pub rows_produced: u64,
    pub scan_metadata_exhausted: Option<bool>,
}

/// Counters of one Delta scan at one moment.
#[derive(Debug, PartialEq, Eq)]
pub struct DeltaProviderReadStatsSnapshot {
    /// Alias of the scanned source.
    pub source_name: String,
    /// Scanned snapshot version.
    pub snapshot_version: u64,
    /// Files that the scan planned.
    pub files_planned: u64,
    /// Files that have been read or pruned.
    pub files_handled: u64,
    /// Files whose reading has started.
    pub files_started: u64,
    /// Files that have been read to their end.
    pub files_completed: u64,
    /// Batches that the scan has produced.
    pub batches_produced: u64,
    /// Rows that the scan has produced.
    pub rows_produced: u64,
    /// Whether the scan has planned all its files, where that is known.
    pub scan_metadata_exhausted: Option<bool>,
}

impl View for DeltaProviderReadStatsSnapshot {
    type V = ProviderSnapshotView;

    open spec fn view(&self) -> ProviderSnapshotView {
        ProviderSnapshotView {
            source_name: self.source_name@,
            snapshot_version: self.snapshot_version,
            files_planned: self.files_planned,
            files_handled: self.files_handled,
            files_started: self.files_started,
            files_completed: self.files_completed,
            batches_produced: self.batches_produced,
            rows_produced: self.rows_produced,
            scan_metadata_exhausted: self.scan_metadata_exhausted,
        }
    }
}

impl Clone for DeltaProviderReadStatsSnapshot {
    fn clone(&self) -> (r: Self)
        ensures
            r == *self,
    {
        DeltaProviderReadStatsSnapshot {
            source_name: self.source_name.clone(),
            snapshot_version: self.snapshot_version,
            files_planned: self.files_planned,
            files_handled: self.files_handled,
            files_started: self.files_started,
            files_completed: self.files_completed,
            batches_produced: self.batches_produced,
            rows_produced: self.rows_produced,
            scan_metadata_exhausted: self.scan_metadata_exhausted,
        }
    }
}

/// What is reported at the end of an execution.
pub struct TerminalReport<P> {
    /// Scans of which a summary is logged, each with the outcome.
    pub summaries: Vec<DeltaProviderReadStatsSnapshot>,
    /// How the execution ended.
    pub outcome: DeltaProviderScanOutcome,
    /// Profile consumer that is told, and the outcome that it is told.
    pub profile: Option<(P, QueryExecutionOutcome)>,
}

/// Ends an execution: from one set of counters the kept list is extended, the summaries are
/// made and the profile consumer is told. Without scans and without a profile nothing happens.
pub fn finalize_tracked_query_execution<P>(
    snapshots: Vec<DeltaProviderReadStatsSnapshot>,
    retained: &mut Vec<DeltaProviderReadStatsSnapshot>,
    profile_consumer: Option<P>,
    outcome: DeltaProviderScanOutcome,
) -> (r: Option<TerminalReport<P>>)
    ensures
        if snapshots@.len() == 0 && profile_consumer is None {
            r is None && final(retained)@ == old(retained)@
        } else {
            &&& final(retained)@ == old(retained)@ + snapshots@
            &&& r matches Some(report) && report.summaries@ == snapshots@ && report.outcome
                == outcome && report.profile == (match profile_consumer {
                Some(consumer) => Some((consumer, outcome.profile_outcome())),
                None => None,
            })
        },
{
    if snapshots.len() == 0 && profile_consumer.is_none() {
        return None;
    }
    let mut i: usize = 0;
    assert(retained@ =~= old(retained)@ + snapshots@.take(0));
    while i < snapshots.len()
        invariant
            i <= snapshots.len(),
            retained@ == old(retained)@ + snapshots@.take(i as int),
        decreases snapshots.len() - i,
    {
        let copy = snapshots[i].clone();
        assert(old(retained)@ + snapshots@.take(i + 1) =~= (old(retained)@ + snapshots@.take(
            i as int,
        )).push(copy));
        retained.push(copy);
        i += 1;
    }
    assert(snapshots@.take(snapshots.len() as int) =~= snapshots@);
    let profile = match profile_consumer {
        Some(consumer) => Some((consumer, outcome.query_execution_outcome())),
        None => None,
    };
    Some(TerminalReport { summaries: snapshots, outcome, profile })
}

/// Plan whose operators a profile is taken from.
#[derive(Debug, Clone, Copy, PartialEq, Eq, Structural)]
pub enum ProfileRoot {
    /// The planned root; the execution could not be started.
    PhysicalPlan,
    /// The root that the execution runs, with what was put on top of the planned one.
    EffectiveRoot,
}

/// Profile that is registered for an execution.
#[derive(Debug, Clone, Copy, PartialEq, Eq, Structural)]
pub struct ProfileRegistration {
    /// What the profile is about.
    pub scope: QueryExecutionScope,
    /// Where its operators are taken from.
    pub root: ProfileRoot,
}

/// The registered profile, where one is wanted.
pub open spec fn registration(scope: Option<QueryExecutionScope>, root: ProfileRoot) -> Option<
    ProfileRegistration,
> {
    match scope {
        Some(scope) => Some(ProfileRegistration { scope, root }),
        None => None,
    }
}

/// Merged stream that was set up.
pub struct QueryStreamSetup {
    /// What is put around the stream.
    pub tracking: StreamTracking,
    /// Profile that is registered for the execution.
    pub profile: Option<ProfileRegistration>,
}

/// Merged stream that could not be set up.
pub struct QueryStreamSetupFailure {
    /// Why there is no stream.
    pub source: DeltaFunnelError,
    /// What is reported at the end of the execution that never ran.
    pub terminal: Option<TerminalReport<ProfileRegistration>>,
}

/// Sets up the merged stream of an execution, from what starting it gave.
///
/// The counters are those of the scans of the plan, which are there before the execution is
/// started. An execution that cannot be started ends at once, as a failed one, with a profile
/// of the planned root. One that is started is tracked, with a profile of the root that runs.
pub fn batch_stream_for_physical_plan(
    snapshots: Vec<DeltaProviderReadStatsSnapshot>,
    retained: &mut Vec<DeltaProviderReadStatsSnapshot>,
    reported: bool,
    profile_scope: Option<QueryExecutionScope>,
    started: Result<(), String>,
) -> (r: Result<QueryStreamSetup, QueryStreamSetupFailure>)
    ensures
        match started {
            Ok(_) => {
                &&& final(retained)@ == old(retained)@
                &&& r matches Ok(setup) && setup.tracking.file_progress == (reported
                    && snapshots@.len() > 0) && setup.tracking.completion == (snapshots@.len() > 0
                    || profile_scope is Some) && setup.profile == registration(
                    profile_scope,
                    ProfileRoot::EffectiveRoot,
                )
            },
            Err(message) => {
                &&& final(retained)@ == old(retained)@ + snapshots@
                &&& r matches Err(failure) && failure.source@ == handoff_setup(
                    "query_output_stream"@,
                    message@,
                ) && (if snapshots@.len() == 0 && profile_scope is None {
                    failure.terminal is None
                } else {
                    failure.terminal matches Some(report) && report.summaries@ == snapshots@
                        && report.outcome == DeltaProviderScanOutcome::Error && report.profile == (
                    match registration(profile_scope, ProfileRoot::PhysicalPlan) {
                        Some(profile) => Some(
                            (profile, DeltaProviderScanOutcome::Error.profile_outcome()),
                        ),
                        None => None,
                    })
                })
            },
        },
{
    match started {
        Ok(_) => {
            let profile = match profile_scope {
                Some(scope) => Some(
                    ProfileRegistration { scope, root: ProfileRoot::EffectiveRoot },
                ),
                None => None,
            };
            let tracking = wrap_stream_with_query_execution_tracking(
                snapshots.len(),
                reported,
                profile.is_some(),
            );
            Ok(QueryStreamSetup { tracking, profile })
        },
        Err(message) => {
            let profile = match profile_scope {
                Some(scope) => Some(ProfileRegistration { scope, root: ProfileRoot::PhysicalPlan }),
                None => None,
            };
            assert(snapshots@.len() == 0 ==> retained@ + snapshots@ =~= retained@);
            let terminal = finalize_tracked_query_execution(
                snapshots,
                retained,
                profile,
                DeltaProviderScanOutcome::Error,
            );
            Err(
                QueryStreamSetupFailure {
                    source: datafusion_handoff_setup_error("query_output_stream", message.as_str()),
                    terminal,
                },
            )
        },
    }
}

/// A sum that stays at the greatest number once it is reached.
pub open spec fn capped_sum(a: u64, b: u64) -> u64 {
    if a + b > u64::MAX {
        u64::MAX
    } else {
        (a + b) as u64
    }
}

/// Handled and total files over some scans.
pub open spec fn file_counts(snapshots: Seq<DeltaProviderReadStatsSnapshot>) -> (u64, u64)
    decreases snapshots.len(),
{
    if snapshots.len() == 0 {
        (0, 0)
    } else {
        let before = file_counts(snapshots.drop_last());
        (
            capped_sum(before.0, snapshots.last().files_handled),
            capped_sum(before.1, snapshots.last().files_planned),
        )
    }
}

/// Adds up handled and total files over some scans; without scans there is no progress.
pub fn file_progress_from_provider_stats(snapshots: &Vec<DeltaProviderReadStatsSnapshot>) -> (r:
    Option<(u64, u64)>)
    ensures
        if snapshots@.len() == 0 {
            r is None
        } else {
            r == Some(file_counts(snapshots@))
        },
{
    if snapshots.len() == 0 {
        return None;
    }
    let mut handled: u64 = 0;
    let mut total: u64 = 0;
    let mut i: usize = 0;
    assert(file_counts(snapshots@.take(0)) == (0u64, 0u64));
    while i < snapshots.len()
        invariant
            i <= snapshots.len(),
            (handled, total) == file_counts(snapshots@.take(i as int)),
        decreases snapshots.len() - i,
    {
        assert(snapshots@.take(i + 1).drop_last() =~= snapshots@.take(i as int));
        handled = handled.saturating_add(snapshots[i].files_handled);
        total = total.saturating_add(snapshots[i].files_planned);
        i += 1;
    }
    assert(snapshots@.take(snapshots.len() as int) =~= snapshots@);
    Some((handled, total))
}

/// Phase that live progress tells of.
#[derive(Debug, Clone, Copy, PartialEq, Eq, Structural)]
pub enum ProgressPhase {
    /// A preview is being planned.
    PreparingPreview,
    /// The rows of a preview are being collected.
    CollectingPreview,
    /// A preview is being rendered.
    FormattingPreview,
    /// Outputs are being planned.
    PlanningOutputs,
    /// An output is being written.
    Writing,
    /// A source is being loaded and registered.
    RegisteringSource,
}

/// Operation that live progress tells of.
#[derive(Debug, Clone, Copy, PartialEq, Eq, Structural)]
pub enum ProgressOperation {
    /// A bounded table preview.
    PreviewTable,
    /// The registration of a source.
    RegisterSource,
    /// A dry run of one or more outputs.
    DryRun,
    /// A write of one or more outputs.
    Write,
}

/// Live progress of one operation.
#[derive(Debug, PartialEq, Eq)]
pub enum ProgressEvent {
    /// The operation started.
    Started { operation: ProgressOperation },
    /// The operation entered a phase.
    PhaseChanged { phase: ProgressPhase },
    /// Files were handled.
    FileProgress {
        phase: ProgressPhase,
        output_name: Option<String>,
        files_handled: u64,
        files_total: u64,
    },
    /// The operation succeeded.
    Completed,
    /// The operation failed.
    Failed,
}

/// Reports file counts of one plan when they change.
pub struct DeltaFileProgressSampler {
    phase: ProgressPhase,
    output_name: Option<String>,
    last_file_progress: Option<(u64, u64)>,
}

impl DeltaFileProgressSampler {
    /// The counts that were reported last.
    pub closed spec fn last(self) -> Option<(u64, u64)> {
        self.last_file_progress
    }

    /// The phase that events carry.
    pub closed spec fn event_phase(self) -> ProgressPhase {
        self.phase
    }

    /// The output name that events carry.
    pub closed spec fn event_output(self) -> Option<String> {
        self.output_name
    }

    /// Starts with nothing reported.
    pub fn new(phase: ProgressPhase, output_name: Option<String>) -> (r: Self)
        ensures
            r.last() is None,
            r.event_phase() == phase,
            r.event_output() == output_name,
    {
        DeltaFileProgressSampler { phase, output_name, last_file_progress: None }
    }

    /// Makes an event of the current file counts when they have changed since the last one.
    pub fn emit_if_changed(&mut self, snapshots: &Vec<DeltaProviderReadStatsSnapshot>) -> (r: Option<
        ProgressEvent,
    >)
        ensures
            final(self).event_phase() == old(self).event_phase(),
            final(self).event_output() == old(self).event_output(),
            if snapshots@.len() == 0 || old(self).last() == Some(file_counts(snapshots@)) {
                r is None && final(self).last() == old(self).last()
            } else {
                &&& final(self).last() == Some(file_counts(snapshots@))
                &&& r == Some(
                    ProgressEvent::FileProgress {
                        phase: old(self).event_phase(),
                        output_name: old(self).event_output(),
                        files_handled: file_counts(snapshots@).0,
                        files_total: file_counts(snapshots@).1,
                    },
                )
            },
    {
        let (files_handled, files_total) = match file_progress_from_provider_stats(snapshots) {
            Some(counts) => counts,
            None => {
                return None;
            },
        };
        match self.last_file_progress {
            Some((handled, total)) => {
                if handled == files_handled && total == files_total {
                    return None;
                }
            },
            None => {},
        }
        self.last_file_progress = Some((files_handled, files_total));
        let output_name = match &self.output_name {
            Some(name) => Some(name.clone()),
            None => None,
        };
        Some(
            ProgressEvent::FileProgress {
                phase: self.phase,
                output_name,
                files_handled,
                files_total,
            },
        )
    }
}

/// Tells whether file counts are sampled at an event: whenever the stream yields something.
pub fn samples_file_progress(event: StreamEvent) -> (r: bool)
    ensures
        r == (event == StreamEvent::Batch || event == StreamEvent::End || event
            == StreamEvent::Failed),
{
    event == StreamEvent::Batch || event == StreamEvent::End || event == StreamEvent::Failed
}

} // verus!
